//! The camera pipeline as a sequence of vendor calls.
//!
//! Bringing the camera up, starting and stopping the stream and shutting it
//! down are each a fixed sequence of CVI calls whose parameters follow from
//! the [`CameraConfig`]. A [`CallRunner`] hands the calls out one at a time;
//! the caller performs each one and reports how it went, and the runner
//! decides whether to go on or which error to return.
use vstd::prelude::*;

use crate::camera::{failure_message, vpss_chn_of, vpss_pixel_format_of, CameraConfig, PixelFormat};
use crate::decimal::i32_to_decimal;
use crate::error::{Error, Result};

verus! {

/// One vendor call of the camera pipeline, with its parameters.
#[derive(Debug, Clone, Copy, PartialEq, Eq, Structural)]
pub enum PipelineStep {
    /// `CVI_SYS_Exit`: release any state left by an earlier run.
    SysExit,
    /// `CVI_VB_Exit`: release video buffer pools left by an earlier run.
    VbExit,
    /// `CVI_VI_SetDevNum`.
    ViSetDevNum { num: u32 },
    /// `CVI_VB_SetConfig` with one common pool.
    VbSetConfig { max_pool_cnt: u32, blk_size: u32, blk_cnt: u32 },
    /// `CVI_VB_Init`.
    VbInit,
    /// `CVI_SYS_Init`.
    SysInit,
    /// `CVI_SYS_SetVIVPSSMode`: VI offline, VPSS online, on VI device 0.
    SetViVpssMode,
    /// `CVI_SYS_SetVPSSModeEx`: single mode with ISP input.
    SetVpssModeEx,
    /// `CVI_VI_SetDevAttr`.
    ViSetDevAttr { dev: i32, width: u32, height: u32 },
    /// `CVI_VI_EnableDev`.
    ViEnableDev { dev: i32 },
    /// `CVI_VI_CreatePipe` in NV21.
    ViCreatePipe { pipe: i32, max_width: u32, max_height: u32 },
    /// `CVI_VI_StartPipe`.
    ViStartPipe { pipe: i32 },
    /// `CVI_ISP_SetPubAttr` (BG Bayer, no WDR, sensor mode 0).
    IspSetPubAttr { pipe: i32, width: u32, height: u32, fps: u32 },
    /// `CVI_ISP_MemInit`.
    IspMemInit { pipe: i32 },
    /// Detect the sensor with a [`crate::sensor::SensorProbe`]; reported as returning 0 when
    /// a sensor was detected.
    ProbeSensor { pipe: i32, width: u32, height: u32, fps: u32 },
    /// `CVI_ISP_Init`.
    IspInit { pipe: i32 },
    /// Run `CVI_ISP_Run` on a thread of its own; it blocks until the ISP exits.
    StartIspRun { pipe: i32 },
    /// `CVI_VI_SetChnAttr` in NV21.
    ViSetChnAttr { pipe: i32, chn: i32, width: u32, height: u32 },
    /// `CVI_VI_EnableChn`.
    ViEnableChn { pipe: i32, chn: i32 },
    /// `CVI_VPSS_CreateGrp` in NV21.
    VpssCreateGrp { grp: i32, max_width: u32, max_height: u32 },
    /// `CVI_VPSS_SetChnAttr`.
    VpssSetChnAttr { grp: i32, chn: i32, width: u32, height: u32, format: PixelFormat },
    /// `CVI_VPSS_EnableChn`.
    VpssEnableChn { grp: i32, chn: i32 },
    /// `CVI_VPSS_StartGrp`.
    VpssStartGrp { grp: i32 },
    /// `CVI_VPSS_GetChnFrame` with a timeout in milliseconds.
    VpssGetChnFrame { grp: i32, chn: i32, timeout_ms: i32 },
    /// `CVI_VPSS_ReleaseChnFrame`.
    VpssReleaseChnFrame { grp: i32, chn: i32 },
    /// `CVI_ISP_Exit`: makes the running `CVI_ISP_Run` return.
    IspExit { pipe: i32 },
    /// Wait for the thread that ran `CVI_ISP_Run`.
    JoinIspRun,
    /// `CVI_VPSS_StopGrp`.
    VpssStopGrp { grp: i32 },
    /// `CVI_VPSS_DisableChn`.
    VpssDisableChn { grp: i32, chn: i32 },
    /// `CVI_VPSS_DestroyGrp`.
    VpssDestroyGrp { grp: i32 },
    /// `CVI_VI_DisableChn`.
    ViDisableChn { pipe: i32, chn: i32 },
    /// `CVI_VI_StopPipe`.
    ViStopPipe { pipe: i32 },
    /// `CVI_VI_DestroyPipe`.
    ViDestroyPipe { pipe: i32 },
    /// `CVI_VI_DisableDev`.
    ViDisableDev { dev: i32 },
}

/// The name of a step's vendor symbol without its `CVI_` prefix.
pub open spec fn step_label(s: PipelineStep) -> Seq<char> {
    match s {
        PipelineStep::SysExit => "SYS_Exit"@,
        PipelineStep::VbExit => "VB_Exit"@,
        PipelineStep::ViSetDevNum { .. } => "VI_SetDevNum"@,
        PipelineStep::VbSetConfig { .. } => "VB_SetConfig"@,
        PipelineStep::VbInit => "VB_Init"@,
        PipelineStep::SysInit => "SYS_Init"@,
        PipelineStep::SetViVpssMode => "SYS_SetVIVPSSMode"@,
        PipelineStep::SetVpssModeEx => "SYS_SetVPSSModeEx"@,
        PipelineStep::ViSetDevAttr { .. } => "VI_SetDevAttr"@,
        PipelineStep::ViEnableDev { .. } => "VI_EnableDev"@,
        PipelineStep::ViCreatePipe { .. } => "VI_CreatePipe"@,
        PipelineStep::ViStartPipe { .. } => "VI_StartPipe"@,
        PipelineStep::IspSetPubAttr { .. } => "ISP_SetPubAttr"@,
        PipelineStep::IspMemInit { .. } => "ISP_MemInit"@,
        PipelineStep::ProbeSensor { .. } => "ISP_SnsInit"@,
        PipelineStep::IspInit { .. } => "ISP_Init"@,
        PipelineStep::StartIspRun { .. } => "ISP_Run"@,
        PipelineStep::ViSetChnAttr { .. } => "VI_SetChnAttr"@,
        PipelineStep::ViEnableChn { .. } => "VI_EnableChn"@,
        PipelineStep::VpssCreateGrp { .. } => "VPSS_CreateGrp"@,
        PipelineStep::VpssSetChnAttr { .. } => "VPSS_SetChnAttr"@,
        PipelineStep::VpssEnableChn { .. } => "VPSS_EnableChn"@,
        PipelineStep::VpssStartGrp { .. } => "VPSS_StartGrp"@,
        PipelineStep::VpssGetChnFrame { .. } => "VPSS_GetChnFrame"@,
        PipelineStep::VpssReleaseChnFrame { .. } => "VPSS_ReleaseChnFrame"@,
        PipelineStep::IspExit { .. } => "ISP_Exit"@,
        PipelineStep::JoinIspRun => "ISP_Run"@,
        PipelineStep::VpssStopGrp { .. } => "VPSS_StopGrp"@,
        PipelineStep::VpssDisableChn { .. } => "VPSS_DisableChn"@,
        PipelineStep::VpssDestroyGrp { .. } => "VPSS_DestroyGrp"@,
        PipelineStep::ViDisableChn { .. } => "VI_DisableChn"@,
        PipelineStep::ViStopPipe { .. } => "VI_StopPipe"@,
        PipelineStep::ViDestroyPipe { .. } => "VI_DestroyPipe"@,
        PipelineStep::ViDisableDev { .. } => "VI_DisableDev"@,
    }
}

impl PipelineStep {
    /// The name of the step's vendor symbol without its `CVI_` prefix.
    pub fn label(&self) -> (s: &'static str)
        ensures
            s@ == step_label(*self),
    {
        match self {
            PipelineStep::SysExit => "SYS_Exit",
            PipelineStep::VbExit => "VB_Exit",
            PipelineStep::ViSetDevNum { .. } => "VI_SetDevNum",
            PipelineStep::VbSetConfig { .. } => "VB_SetConfig",
            PipelineStep::VbInit => "VB_Init",
            PipelineStep::SysInit => "SYS_Init",
            PipelineStep::SetViVpssMode => "SYS_SetVIVPSSMode",
            PipelineStep::SetVpssModeEx => "SYS_SetVPSSModeEx",
            PipelineStep::ViSetDevAttr { .. } => "VI_SetDevAttr",
            PipelineStep::ViEnableDev { .. } => "VI_EnableDev",
            PipelineStep::ViCreatePipe { .. } => "VI_CreatePipe",
            PipelineStep::ViStartPipe { .. } => "VI_StartPipe",
            PipelineStep::IspSetPubAttr { .. } => "ISP_SetPubAttr",
            PipelineStep::IspMemInit { .. } => "ISP_MemInit",
            PipelineStep::ProbeSensor { .. } => "ISP_SnsInit",
            PipelineStep::IspInit { .. } => "ISP_Init",
            PipelineStep::StartIspRun { .. } => "ISP_Run",
            PipelineStep::ViSetChnAttr { .. } => "VI_SetChnAttr",
            PipelineStep::ViEnableChn { .. } => "VI_EnableChn",
            PipelineStep::VpssCreateGrp { .. } => "VPSS_CreateGrp",
            PipelineStep::VpssSetChnAttr { .. } => "VPSS_SetChnAttr",
            PipelineStep::VpssEnableChn { .. } => "VPSS_EnableChn",
            PipelineStep::VpssStartGrp { .. } => "VPSS_StartGrp",
            PipelineStep::VpssGetChnFrame { .. } => "VPSS_GetChnFrame",
            PipelineStep::VpssReleaseChnFrame { .. } => "VPSS_ReleaseChnFrame",
            PipelineStep::IspExit { .. } => "ISP_Exit",
            PipelineStep::JoinIspRun => "ISP_Run",
            PipelineStep::VpssStopGrp { .. } => "VPSS_StopGrp",
            PipelineStep::VpssDisableChn { .. } => "VPSS_DisableChn",
            PipelineStep::VpssDestroyGrp { .. } => "VPSS_DestroyGrp",
            PipelineStep::ViDisableChn { .. } => "VI_DisableChn",
            PipelineStep::ViStopPipe { .. } => "VI_StopPipe",
            PipelineStep::ViDestroyPipe { .. } => "VI_DestroyPipe",
            PipelineStep::ViDisableDev { .. } => "VI_DisableDev",
        }
    }
}

/// How a vendor call went, as far as the pipeline decisions need to know.
#[derive(Debug)]
pub enum CallOutcome {
    /// The function was found and returned this code.
    Returned(i32),
    /// The function's symbol could not be resolved; the text says why.
    SymbolMissing(String),
}

/// The error message for a symbol that could not be resolved.
pub open spec fn symbol_message(label: Seq<char>, detail: Seq<char>) -> Seq<char> {
    label + " symbol: "@ + detail
}

/// The judgement of a checked call: a missing symbol or a non-zero return
/// code is an error whose message names the call.
pub open spec fn outcome_error(label: Seq<char>, outcome: CallOutcome) -> Option<Seq<char>> {
    match outcome {
        CallOutcome::SymbolMissing(d) => Some(symbol_message(label, d@)),
        CallOutcome::Returned(rc) => if rc == 0 {
            None
        } else {
            Some(failure_message("CVI_"@ + label, rc))
        },
    }
}

/// Judge the outcome of a checked camera call: `Ok` when the symbol was
/// found and the call returned 0, otherwise a camera error naming the call.
pub fn check_outcome(label: &str, outcome: &CallOutcome) -> (r: Result<()>)
    ensures
        outcome_error(label@, *outcome) is None <==> r is Ok,
        outcome_error(label@, *outcome) matches Some(m) ==> (r matches Err(Error::Camera(e))
            && e@ == m),
{
    match outcome {
        CallOutcome::SymbolMissing(d) => {
            let m = String::from_str(label).concat(" symbol: ").concat(d.as_str());
            Err(Error::Camera(m))
        },
        CallOutcome::Returned(rc) => {
            if *rc == 0 {
                Ok(())
            } else {
                let code = i32_to_decimal(*rc);
                let m = String::from_str("CVI_").concat(label).concat(" failed (rc=").concat(
                    code.as_str(),
                ).concat(")");
                Err(Error::Camera(m))
            }
        },
    }
}

/// What a failure of a planned call does to the plan.
#[derive(Debug, Clone, Copy, PartialEq, Eq, Structural)]
pub enum FailurePolicy {
    /// The call's result is ignored.
    Ignore,
    /// A failure ends the plan with the call's error.
    Abort,
    /// A failure is remembered and the plan goes on; the plan then ends with
    /// the first such error.
    Record,
}

/// A step of a plan, and what its failure does.
#[derive(Debug, Clone, Copy, PartialEq, Eq, Structural)]
pub struct PlannedCall {
    /// The vendor call.
    pub step: PipelineStep,
    /// What a failure of the call does to the plan.
    pub policy: FailurePolicy,
}

/// A step whose failure ends the plan.
pub open spec fn checked(step: PipelineStep) -> PlannedCall {
    PlannedCall { step, policy: FailurePolicy::Abort }
}

/// A step whose result is ignored.
pub open spec fn unchecked(step: PipelineStep) -> PlannedCall {
    PlannedCall { step, policy: FailurePolicy::Ignore }
}

/// A step whose failure is reported once the plan is over.
pub open spec fn recorded(step: PipelineStep) -> PlannedCall {
    PlannedCall { step, policy: FailurePolicy::Record }
}

/// The size of one video buffer block: a full frame in RGB888, the largest
/// format the pipeline produces.
pub open spec fn vb_block_size(config: CameraConfig) -> int {
    config.resolution.width * config.resolution.height * 3
}

/// The calls that bring the camera system up: clear what an earlier run may
/// have left, then configure and initialise buffers, the system, and the
/// VI/VPSS modes.
pub open spec fn init_plan(config: CameraConfig) -> Seq<PlannedCall> {
    seq![
        unchecked(PipelineStep::SysExit),
        unchecked(PipelineStep::VbExit),
        checked(PipelineStep::ViSetDevNum { num: 1 }),
        checked(
            PipelineStep::VbSetConfig {
                max_pool_cnt: 1,
                blk_size: vb_block_size(config) as u32,
                blk_cnt: 4,
            },
        ),
        checked(PipelineStep::VbInit),
        checked(PipelineStep::SysInit),
        checked(PipelineStep::SetViVpssMode),
        checked(PipelineStep::SetVpssModeEx),
    ]
}

/// The calls that start the video stream: VI device, pipe, ISP and sensor,
/// VI channel, then the VPSS group and the configured channel.
pub open spec fn start_plan(config: CameraConfig) -> Seq<PlannedCall> {
    let w = config.resolution.width;
    let h = config.resolution.height;
    let chn = vpss_chn_of(config.channel);
    seq![
        checked(PipelineStep::ViSetDevAttr { dev: 0, width: w, height: h }),
        checked(PipelineStep::ViEnableDev { dev: 0 }),
        checked(PipelineStep::ViCreatePipe { pipe: 0, max_width: w, max_height: h }),
        checked(PipelineStep::ViStartPipe { pipe: 0 }),
        checked(PipelineStep::IspSetPubAttr { pipe: 0, width: w, height: h, fps: config.fps }),
        checked(PipelineStep::IspMemInit { pipe: 0 }),
        checked(PipelineStep::ProbeSensor { pipe: 0, width: w, height: h, fps: config.fps }),
        checked(PipelineStep::IspInit { pipe: 0 }),
        unchecked(PipelineStep::StartIspRun { pipe: 0 }),
        checked(PipelineStep::ViSetChnAttr { pipe: 0, chn: 0, width: w, height: h }),
        checked(PipelineStep::ViEnableChn { pipe: 0, chn: 0 }),
        checked(PipelineStep::VpssCreateGrp { grp: 0, max_width: w, max_height: h }),
        checked(
            PipelineStep::VpssSetChnAttr {
                grp: 0,
                chn,
                width: w,
                height: h,
                format: vpss_pixel_format_of(config.channel),
            },
        ),
        checked(PipelineStep::VpssEnableChn { grp: 0, chn }),
        checked(PipelineStep::VpssStartGrp { grp: 0 }),
    ]
}

/// The calls that stop the video stream, in teardown order: every one is
/// made, and the first stage that fails to stop is reported at the end.
pub open spec fn stop_plan(config: CameraConfig) -> Seq<PlannedCall> {
    let chn = vpss_chn_of(config.channel);
    seq![
        recorded(PipelineStep::IspExit { pipe: 0 }),
        unchecked(PipelineStep::JoinIspRun),
        recorded(PipelineStep::VpssStopGrp { grp: 0 }),
        recorded(PipelineStep::VpssDisableChn { grp: 0, chn }),
        recorded(PipelineStep::VpssDestroyGrp { grp: 0 }),
        recorded(PipelineStep::ViDisableChn { pipe: 0, chn: 0 }),
        recorded(PipelineStep::ViStopPipe { pipe: 0 }),
        recorded(PipelineStep::ViDestroyPipe { pipe: 0 }),
        recorded(PipelineStep::ViDisableDev { dev: 0 }),
    ]
}

/// The calls that release the system when the camera is dropped.
pub open spec fn release_plan() -> Seq<PlannedCall> {
    seq![unchecked(PipelineStep::SysExit), unchecked(PipelineStep::VbExit)]
}

/// The state of a [`CallRunner`]: its plan, how many calls have been
/// reported, whether one ended the plan, and the first recorded failure.
pub struct RunnerView {
    /// The calls of the plan.
    pub plan: Seq<PlannedCall>,
    /// How many calls have been reported.
    pub done: nat,
    /// Whether a call whose failure ends the plan failed.
    pub failed: bool,
    /// The message of the first recorded failure.
    pub recorded: Option<Seq<char>>,
}

/// One report to a runner: the next state, and the message of the error
/// the report returns, if any.
pub open spec fn runner_step(v: RunnerView, o: CallOutcome) -> (RunnerView, Option<Seq<char>>) {
    if v.failed || v.done >= v.plan.len() {
        (v, None)
    } else {
        let call = v.plan[v.done as int];
        let verdict = outcome_error(step_label(call.step), o);
        if call.policy == FailurePolicy::Abort && verdict is Some {
            (RunnerView { failed: true, ..v }, verdict)
        } else {
            (
                RunnerView {
                    done: v.done + 1,
                    recorded: if call.policy == FailurePolicy::Record && verdict is Some
                        && v.recorded is None {
                        verdict
                    } else {
                        v.recorded
                    },
                    ..v
                },
                None,
            )
        }
    }
}

/// Reports of `os` in turn, stopping at the first that returns an error:
/// the final state and that error's message, if any.
pub open spec fn runner_run(v: RunnerView, os: Seq<CallOutcome>) -> (RunnerView, Option<Seq<char>>)
    decreases os.len(),
{
    if os.len() == 0 {
        (v, None)
    } else {
        let (v1, e) = runner_step(v, os[0]);
        if e is Some {
            (v1, e)
        } else {
            runner_run(v1, os.drop_first())
        }
    }
}

/// The message of a camera error result, if it is one.
pub open spec fn camera_error_message(r: Result<()>) -> Option<Seq<char>> {
    match r {
        Err(Error::Camera(m)) => Some(m@),
        _ => None,
    }
}

/// Hands out the calls of a plan one at a time and judges their outcomes.
#[derive(Debug)]
pub struct CallRunner {
    calls: Vec<PlannedCall>,
    pos: usize,
    failed: bool,
    recorded: Option<String>,
}

impl CallRunner {
    /// The calls of the plan.
    pub closed spec fn plan(&self) -> Seq<PlannedCall> {
        self.calls@
    }

    /// How many calls have been reported.
    pub closed spec fn done(&self) -> nat {
        self.pos as nat
    }

    /// Whether a call whose failure ends the plan failed.
    pub closed spec fn has_failed(&self) -> bool {
        self.failed
    }

    /// The message of the first failure of a call whose failures are
    /// reported at the end, if there was one.
    pub closed spec fn first_recorded(&self) -> Option<Seq<char>> {
        match self.recorded {
            Some(m) => Some(m@),
            None => None,
        }
    }

    /// The runner's state.
    pub open spec fn model(&self) -> RunnerView {
        RunnerView {
            plan: self.plan(),
            done: self.done(),
            failed: self.has_failed(),
            recorded: self.first_recorded(),
        }
    }

    /// Whether every call of the plan has been made and none ended it.
    pub open spec fn completed(&self) -> bool {
        self.done() == self.plan().len() && !self.has_failed()
    }

    /// A runner at the start of `calls`.
    pub fn new(calls: Vec<PlannedCall>) -> (r: Self)
        ensures
            r.plan() == calls@,
            r.done() == 0,
            !r.has_failed(),
            r.first_recorded() is None,
    {
        CallRunner { calls, pos: 0, failed: false, recorded: None }
    }

    /// The next call to make, or `None` when the plan is over (all calls
    /// made, or one ended it).
    pub fn next_call(&self) -> (c: Option<PipelineStep>)
        ensures
            !self.has_failed() && self.done() < self.plan().len() ==> c == Some(
                self.plan()[self.done() as int].step,
            ),
            self.has_failed() || self.done() >= self.plan().len() ==> c is None,
    {
        if self.failed || self.pos >= self.calls.len() {
            None
        } else {
            Some(self.calls[self.pos].step)
        }
    }

    /// Report how the call last handed out went. A failure of a call with
    /// [`FailurePolicy::Abort`] ends the plan with its error; a failure of
    /// one with [`FailurePolicy::Record`] is remembered if it is the first;
    /// any other outcome moves on to the next call.
    pub fn report(&mut self, outcome: &CallOutcome) -> (r: Result<()>)
        ensures
            runner_step(old(self).model(), *outcome) == (final(self).model(), camera_error_message(r)),
            r is Err ==> r matches Err(Error::Camera(_)),
            final(self).plan() == old(self).plan(),
            old(self).has_failed() || old(self).done() >= old(self).plan().len() ==> (r is Ok
                && final(self).done() == old(self).done() && final(self).has_failed()
                == old(self).has_failed() && final(self).first_recorded() == old(
                self,
            ).first_recorded()),
            !old(self).has_failed() && old(self).done() < old(self).plan().len() ==> ({
                let call = old(self).plan()[old(self).done() as int];
                let verdict = outcome_error(step_label(call.step), *outcome);
                if call.policy == FailurePolicy::Abort && verdict is Some {
                    &&& r matches Err(Error::Camera(m)) && m@ == verdict->0
                    &&& final(self).has_failed()
                    &&& final(self).done() == old(self).done()
                    &&& final(self).first_recorded() == old(self).first_recorded()
                } else {
                    &&& r is Ok
                    &&& !final(self).has_failed()
                    &&& final(self).done() == old(self).done() + 1
                    &&& final(self).first_recorded() == if call.policy == FailurePolicy::Record
                        && verdict is Some && old(self).first_recorded() is None {
                        verdict
                    } else {
                        old(self).first_recorded()
                    }
                }
            }),
    {
        if self.failed || self.pos >= self.calls.len() {
            return Ok(());
        }
        let call = self.calls[self.pos];
        match call.policy {
            FailurePolicy::Ignore => {},
            FailurePolicy::Abort => {
                let verdict = check_outcome(call.step.label(), outcome);
                if verdict.is_err() {
                    self.failed = true;
                    return verdict;
                }
            },
            FailurePolicy::Record => {
                let verdict = check_outcome(call.step.label(), outcome);
                match verdict {
                    Err(Error::Camera(m)) => {
                        if self.recorded.is_none() {
                            self.recorded = Some(m);
                        }
                    },
                    _ => {},
                }
            },
        }
        self.pos = self.pos + 1;
        Ok(())
    }

    /// Whether every call of the plan has been made and none ended it.
    pub fn is_complete(&self) -> (b: bool)
        ensures
            b == self.completed(),
    {
        !self.failed && self.pos == self.calls.len()
    }

    /// The result of the plan's reported failures: the first one, if any.
    pub fn recorded_result(&self) -> (r: Result<()>)
        ensures
            self.first_recorded() is None ==> r is Ok,
            self.first_recorded() matches Some(m) ==> (r matches Err(Error::Camera(e)) && e@ == m),
    {
        match &self.recorded {
            None => Ok(()),
            Some(m) => Err(Error::Camera(m.clone())),
        }
    }
}

/// The calls that bring the camera system up for `config`.
pub fn init_calls(config: &CameraConfig) -> (v: Vec<PlannedCall>)
    requires
        vb_block_size(*config) <= u32::MAX,
    ensures
        v@ == init_plan(*config),
{
    let blk_size = config.resolution.width * config.resolution.height * 3;
    let v = vec![
        PlannedCall { step: PipelineStep::SysExit, policy: FailurePolicy::Ignore },
        PlannedCall { step: PipelineStep::VbExit, policy: FailurePolicy::Ignore },
        PlannedCall { step: PipelineStep::ViSetDevNum { num: 1 }, policy: FailurePolicy::Abort },
        PlannedCall {
            step: PipelineStep::VbSetConfig { max_pool_cnt: 1, blk_size, blk_cnt: 4 },
            policy: FailurePolicy::Abort,
        },
        PlannedCall { step: PipelineStep::VbInit, policy: FailurePolicy::Abort },
        PlannedCall { step: PipelineStep::SysInit, policy: FailurePolicy::Abort },
        PlannedCall { step: PipelineStep::SetViVpssMode, policy: FailurePolicy::Abort },
        PlannedCall { step: PipelineStep::SetVpssModeEx, policy: FailurePolicy::Abort },
    ];
    assert(v@ =~= init_plan(*config));
    v
}

/// The calls that start the video stream for `config`.
pub fn start_calls(config: &CameraConfig) -> (v: Vec<PlannedCall>)
    ensures
        v@ == start_plan(*config),
{
    let w = config.resolution.width;
    let h = config.resolution.height;
    let chn = config.channel.vpss_chn();
    let fps = config.fps;
    let v = vec![
        PlannedCall { step: PipelineStep::ViSetDevAttr { dev: 0, width: w, height: h }, policy: FailurePolicy::Abort },
        PlannedCall { step: PipelineStep::ViEnableDev { dev: 0 }, policy: FailurePolicy::Abort },
        PlannedCall {
            step: PipelineStep::ViCreatePipe { pipe: 0, max_width: w, max_height: h },
            policy: FailurePolicy::Abort,
        },
        PlannedCall { step: PipelineStep::ViStartPipe { pipe: 0 }, policy: FailurePolicy::Abort },
        PlannedCall {
            step: PipelineStep::IspSetPubAttr { pipe: 0, width: w, height: h, fps },
            policy: FailurePolicy::Abort,
        },
        PlannedCall { step: PipelineStep::IspMemInit { pipe: 0 }, policy: FailurePolicy::Abort },
        PlannedCall {
            step: PipelineStep::ProbeSensor { pipe: 0, width: w, height: h, fps },
            policy: FailurePolicy::Abort,
        },
        PlannedCall { step: PipelineStep::IspInit { pipe: 0 }, policy: FailurePolicy::Abort },
        PlannedCall { step: PipelineStep::StartIspRun { pipe: 0 }, policy: FailurePolicy::Ignore },
        PlannedCall {
            step: PipelineStep::ViSetChnAttr { pipe: 0, chn: 0, width: w, height: h },
            policy: FailurePolicy::Abort,
        },
        PlannedCall { step: PipelineStep::ViEnableChn { pipe: 0, chn: 0 }, policy: FailurePolicy::Abort },
        PlannedCall {
            step: PipelineStep::VpssCreateGrp { grp: 0, max_width: w, max_height: h },
            policy: FailurePolicy::Abort,
        },
        PlannedCall {
            step: PipelineStep::VpssSetChnAttr {
                grp: 0,
                chn,
                width: w,
                height: h,
                format: config.channel.vpss_pixel_format(),
            },
            policy: FailurePolicy::Abort,
        },
        PlannedCall { step: PipelineStep::VpssEnableChn { grp: 0, chn }, policy: FailurePolicy::Abort },
        PlannedCall { step: PipelineStep::VpssStartGrp { grp: 0 }, policy: FailurePolicy::Abort },
    ];
    assert(v@ =~= start_plan(*config));
    v
}

/// The calls that stop the video stream for `config`.
pub fn stop_calls(config: &CameraConfig) -> (v: Vec<PlannedCall>)
    ensures
        v@ == stop_plan(*config),
{
    let chn = config.channel.vpss_chn();
    let v = vec![
        PlannedCall { step: PipelineStep::IspExit { pipe: 0 }, policy: FailurePolicy::Record },
        PlannedCall { step: PipelineStep::JoinIspRun, policy: FailurePolicy::Ignore },
        PlannedCall { step: PipelineStep::VpssStopGrp { grp: 0 }, policy: FailurePolicy::Record },
        PlannedCall { step: PipelineStep::VpssDisableChn { grp: 0, chn }, policy: FailurePolicy::Record },
        PlannedCall { step: PipelineStep::VpssDestroyGrp { grp: 0 }, policy: FailurePolicy::Record },
        PlannedCall { step: PipelineStep::ViDisableChn { pipe: 0, chn: 0 }, policy: FailurePolicy::Record },
        PlannedCall { step: PipelineStep::ViStopPipe { pipe: 0 }, policy: FailurePolicy::Record },
        PlannedCall { step: PipelineStep::ViDestroyPipe { pipe: 0 }, policy: FailurePolicy::Record },
        PlannedCall { step: PipelineStep::ViDisableDev { dev: 0 }, policy: FailurePolicy::Record },
    ];
    assert(v@ =~= stop_plan(*config));
    v
}


/// The frame size a step is set up with, for the steps that carry one.
pub open spec fn step_size(s: PipelineStep) -> Option<(u32, u32)> {
    match s {
        PipelineStep::ViSetDevAttr { width, height, .. } => Some((width, height)),
        PipelineStep::ViCreatePipe { max_width, max_height, .. } => Some((max_width, max_height)),
        PipelineStep::IspSetPubAttr { width, height, .. } => Some((width, height)),
        PipelineStep::ProbeSensor { width, height, .. } => Some((width, height)),
        PipelineStep::ViSetChnAttr { width, height, .. } => Some((width, height)),
        PipelineStep::VpssCreateGrp { max_width, max_height, .. } => Some((max_width, max_height)),
        PipelineStep::VpssSetChnAttr { width, height, .. } => Some((width, height)),
        _ => None,
    }
}

/// The frame rate a step is set up with, for the steps that carry one.
pub open spec fn step_fps(s: PipelineStep) -> Option<u32> {
    match s {
        PipelineStep::IspSetPubAttr { fps, .. } => Some(fps),
        PipelineStep::ProbeSensor { fps, .. } => Some(fps),
        _ => None,
    }
}

/// Every step of `plan` that is set up with a frame size uses the
/// configured width and height (in that order), and every step set up with
/// a frame rate uses the configured rate.
pub open spec fn set_up_for(plan: Seq<PlannedCall>, config: CameraConfig) -> bool {
    &&& forall|i: int|
        0 <= i < plan.len() && (#[trigger] step_size(plan[i].step)) is Some ==> step_size(
            plan[i].step,
        ) == Some((config.resolution.width, config.resolution.height))
    &&& forall|i: int|
        0 <= i < plan.len() && (#[trigger] step_fps(plan[i].step)) is Some ==> step_fps(
            plan[i].step,
        ) == Some(config.fps)
}

/// The steps of a plan, in order.
pub open spec fn plan_steps(plan: Seq<PlannedCall>) -> Seq<PipelineStep> {
    plan.map_values(|c: PlannedCall| c.step)
}

/// Step `a` occurs in `plan`, so does `b`, and every occurrence of `a` comes
/// before every occurrence of `b`.
pub open spec fn precedes(plan: Seq<PlannedCall>, a: PipelineStep, b: PipelineStep) -> bool {
    &&& exists|i: int| 0 <= i < plan.len() && (#[trigger] plan[i]).step == a
    &&& exists|j: int| 0 <= j < plan.len() && (#[trigger] plan[j]).step == b
    &&& forall|i: int, j: int|
        #![trigger plan[i], plan[j]]
        0 <= i < plan.len() && 0 <= j < plan.len() && plan[i].step == a && plan[j].step == b
            ==> i < j
}

/// Starting the stream sets up every stage for the configured frame: the
/// fifteen calls configure, in order, the VI device, its pipe, the ISP and
/// sensor, the VI channel and the VPSS group and the configured channel in
/// its pixel format, and each of the
/// seven calls that take a frame size (VI device attributes, VI pipe, ISP
/// attributes, sensor probe, VI channel, VPSS group, VPSS channel) takes
/// the configured width as width and height as height; the ISP and the
/// sensor run at the configured frame rate.
pub proof fn lemma_start_plan_set_up_for_config(config: CameraConfig)
    ensures
        start_plan(config).len() == 15,
        plan_steps(start_plan(config)) == seq![
            PipelineStep::ViSetDevAttr { dev: 0, width: config.resolution.width, height: config.resolution.height },
            PipelineStep::ViEnableDev { dev: 0 },
            PipelineStep::ViCreatePipe { pipe: 0, max_width: config.resolution.width, max_height: config.resolution.height },
            PipelineStep::ViStartPipe { pipe: 0 },
            PipelineStep::IspSetPubAttr {
                pipe: 0,
                width: config.resolution.width,
                height: config.resolution.height,
                fps: config.fps,
            },
            PipelineStep::IspMemInit { pipe: 0 },
            PipelineStep::ProbeSensor {
                pipe: 0,
                width: config.resolution.width,
                height: config.resolution.height,
                fps: config.fps,
            },
            PipelineStep::IspInit { pipe: 0 },
            PipelineStep::StartIspRun { pipe: 0 },
            PipelineStep::ViSetChnAttr { pipe: 0, chn: 0, width: config.resolution.width, height: config.resolution.height },
            PipelineStep::ViEnableChn { pipe: 0, chn: 0 },
            PipelineStep::VpssCreateGrp { grp: 0, max_width: config.resolution.width, max_height: config.resolution.height },
            PipelineStep::VpssSetChnAttr {
                grp: 0,
                chn: vpss_chn_of(config.channel),
                width: config.resolution.width,
                height: config.resolution.height,
                format: vpss_pixel_format_of(config.channel),
            },
            PipelineStep::VpssEnableChn { grp: 0, chn: vpss_chn_of(config.channel) },
            PipelineStep::VpssStartGrp { grp: 0 },
        ],
        set_up_for(start_plan(config), config),
        forall|i: int|
            0 <= i < 15 ==> ((#[trigger] step_size(start_plan(config)[i].step)) is Some <==> (i == 0
                || i == 2 || i == 4 || i == 6 || i == 9 || i == 11 || i == 12)),
        forall|i: int|
            0 <= i < 15 ==> ((#[trigger] step_fps(start_plan(config)[i].step)) is Some <==> (i == 4
                || i == 6)),
        precedes(start_plan(config), PipelineStep::ViEnableDev { dev: 0 }, PipelineStep::ViStartPipe { pipe: 0 }),
        precedes(start_plan(config), PipelineStep::IspInit { pipe: 0 }, PipelineStep::StartIspRun { pipe: 0 }),
        precedes(start_plan(config), PipelineStep::ViEnableChn { pipe: 0, chn: 0 }, PipelineStep::VpssStartGrp { grp: 0 }),
{
    let p = start_plan(config);
    assert(plan_steps(p) =~= seq![
        PipelineStep::ViSetDevAttr { dev: 0, width: config.resolution.width, height: config.resolution.height },
        PipelineStep::ViEnableDev { dev: 0 },
        PipelineStep::ViCreatePipe { pipe: 0, max_width: config.resolution.width, max_height: config.resolution.height },
        PipelineStep::ViStartPipe { pipe: 0 },
        PipelineStep::IspSetPubAttr {
            pipe: 0,
            width: config.resolution.width,
            height: config.resolution.height,
            fps: config.fps,
        },
        PipelineStep::IspMemInit { pipe: 0 },
        PipelineStep::ProbeSensor {
            pipe: 0,
            width: config.resolution.width,
            height: config.resolution.height,
            fps: config.fps,
        },
        PipelineStep::IspInit { pipe: 0 },
        PipelineStep::StartIspRun { pipe: 0 },
        PipelineStep::ViSetChnAttr { pipe: 0, chn: 0, width: config.resolution.width, height: config.resolution.height },
        PipelineStep::ViEnableChn { pipe: 0, chn: 0 },
        PipelineStep::VpssCreateGrp { grp: 0, max_width: config.resolution.width, max_height: config.resolution.height },
        PipelineStep::VpssSetChnAttr {
            grp: 0,
            chn: vpss_chn_of(config.channel),
            width: config.resolution.width,
            height: config.resolution.height,
            format: vpss_pixel_format_of(config.channel),
        },
        PipelineStep::VpssEnableChn { grp: 0, chn: vpss_chn_of(config.channel) },
        PipelineStep::VpssStartGrp { grp: 0 },
    ]);
    assert forall|i: int| 0 <= i < 15 implies ((#[trigger] step_size(p[i].step)) is Some <==> (i == 0
        || i == 2 || i == 4 || i == 6 || i == 9 || i == 11 || i == 12)) && (step_size(p[i].step) is Some
        ==> step_size(p[i].step) == Some((config.resolution.width, config.resolution.height))) by {
        assert(i == 0 || i == 1 || i == 2 || i == 3 || i == 4 || i == 5 || i == 6 || i == 7 || i == 8
            || i == 9 || i == 10 || i == 11 || i == 12 || i == 13 || i == 14);
    }
    assert forall|i: int| 0 <= i < 15 implies ((#[trigger] step_fps(p[i].step)) is Some <==> (i == 4
        || i == 6)) && (step_fps(p[i].step) is Some ==> step_fps(p[i].step) == Some(config.fps)) by {
        assert(i == 0 || i == 1 || i == 2 || i == 3 || i == 4 || i == 5 || i == 6 || i == 7 || i == 8
            || i == 9 || i == 10 || i == 11 || i == 12 || i == 13 || i == 14);
    }
    lemma_precedes_at(p, 1, 3);
    lemma_precedes_at(p, 7, 8);
    lemma_precedes_at(p, 10, 14);
}

/// Bringing the camera up releases what an earlier run left, sets one VI
/// device, configures one common pool of four full RGB888 frames, and only
/// then initialises the video buffers, after them the system, and last the
/// VI/VPSS modes.
pub proof fn lemma_init_plan_order(config: CameraConfig)
    ensures
        plan_steps(init_plan(config)) == seq![
            PipelineStep::SysExit,
            PipelineStep::VbExit,
            PipelineStep::ViSetDevNum { num: 1 },
            PipelineStep::VbSetConfig {
                max_pool_cnt: 1,
                blk_size: (config.resolution.width * config.resolution.height * 3) as u32,
                blk_cnt: 4,
            },
            PipelineStep::VbInit,
            PipelineStep::SysInit,
            PipelineStep::SetViVpssMode,
            PipelineStep::SetVpssModeEx,
        ],
        precedes(init_plan(config), PipelineStep::VbInit, PipelineStep::SysInit),
        precedes(init_plan(config), PipelineStep::SysInit, PipelineStep::SetViVpssMode),
        precedes(init_plan(config), PipelineStep::SetViVpssMode, PipelineStep::SetVpssModeEx),
        precedes(init_plan(config), PipelineStep::VbExit, PipelineStep::VbInit),
        precedes(init_plan(config), PipelineStep::SysExit, PipelineStep::SysInit),
{
    let p = init_plan(config);
    assert(plan_steps(p) =~= seq![
        PipelineStep::SysExit,
        PipelineStep::VbExit,
        PipelineStep::ViSetDevNum { num: 1 },
        PipelineStep::VbSetConfig {
            max_pool_cnt: 1,
            blk_size: (config.resolution.width * config.resolution.height * 3) as u32,
            blk_cnt: 4,
        },
        PipelineStep::VbInit,
        PipelineStep::SysInit,
        PipelineStep::SetViVpssMode,
        PipelineStep::SetVpssModeEx,
    ]);
    lemma_precedes_at(p, 4, 5);
    lemma_precedes_at(p, 5, 6);
    lemma_precedes_at(p, 6, 7);
    lemma_precedes_at(p, 1, 4);
    lemma_precedes_at(p, 0, 5);
}

/// Stopping the stream tears it down from the ISP back to the VI device:
/// the ISP exits and its thread is joined, then the VPSS group is stopped,
/// its channel disabled and the group destroyed, then the VI channel is
/// disabled, its pipe stopped and destroyed, and the device disabled last.
/// Every stage is stopped or disabled before it is destroyed.
pub proof fn lemma_stop_plan_order(config: CameraConfig)
    ensures
        plan_steps(stop_plan(config)) == seq![
            PipelineStep::IspExit { pipe: 0 },
            PipelineStep::JoinIspRun,
            PipelineStep::VpssStopGrp { grp: 0 },
            PipelineStep::VpssDisableChn { grp: 0, chn: vpss_chn_of(config.channel) },
            PipelineStep::VpssDestroyGrp { grp: 0 },
            PipelineStep::ViDisableChn { pipe: 0, chn: 0 },
            PipelineStep::ViStopPipe { pipe: 0 },
            PipelineStep::ViDestroyPipe { pipe: 0 },
            PipelineStep::ViDisableDev { dev: 0 },
        ],
        precedes(stop_plan(config), PipelineStep::IspExit { pipe: 0 }, PipelineStep::JoinIspRun),
        precedes(stop_plan(config), PipelineStep::VpssStopGrp { grp: 0 }, PipelineStep::VpssDestroyGrp { grp: 0 }),
        precedes(
            stop_plan(config),
            PipelineStep::VpssDisableChn { grp: 0, chn: vpss_chn_of(config.channel) },
            PipelineStep::VpssDestroyGrp { grp: 0 },
        ),
        precedes(stop_plan(config), PipelineStep::VpssDestroyGrp { grp: 0 }, PipelineStep::ViDisableChn { pipe: 0, chn: 0 }),
        precedes(stop_plan(config), PipelineStep::ViDisableChn { pipe: 0, chn: 0 }, PipelineStep::ViStopPipe { pipe: 0 }),
        precedes(stop_plan(config), PipelineStep::ViStopPipe { pipe: 0 }, PipelineStep::ViDestroyPipe { pipe: 0 }),
        precedes(stop_plan(config), PipelineStep::ViDestroyPipe { pipe: 0 }, PipelineStep::ViDisableDev { dev: 0 }),
{
    let p = stop_plan(config);
    assert(plan_steps(p) =~= seq![
        PipelineStep::IspExit { pipe: 0 },
        PipelineStep::JoinIspRun,
        PipelineStep::VpssStopGrp { grp: 0 },
        PipelineStep::VpssDisableChn { grp: 0, chn: vpss_chn_of(config.channel) },
        PipelineStep::VpssDestroyGrp { grp: 0 },
        PipelineStep::ViDisableChn { pipe: 0, chn: 0 },
        PipelineStep::ViStopPipe { pipe: 0 },
        PipelineStep::ViDestroyPipe { pipe: 0 },
        PipelineStep::ViDisableDev { dev: 0 },
    ]);
    lemma_precedes_at(p, 0, 1);
    lemma_precedes_at(p, 2, 4);
    lemma_precedes_at(p, 3, 4);
    lemma_precedes_at(p, 4, 5);
    lemma_precedes_at(p, 5, 6);
    lemma_precedes_at(p, 6, 7);
    lemma_precedes_at(p, 7, 8);
}

/// In a plan whose steps are pairwise distinct, the step at `a` precedes the
/// step at `b` when `a < b`.
proof fn lemma_precedes_at(plan: Seq<PlannedCall>, a: int, b: int)
    requires
        0 <= a < b < plan.len(),
        forall|i: int, j: int|
            #![trigger plan[i], plan[j]]
            0 <= i < plan.len() && 0 <= j < plan.len() && i != j ==> plan[i].step != plan[j].step,
    ensures
        precedes(plan, plan[a].step, plan[b].step),
{
    assert forall|i: int, j: int|
        #![trigger plan[i], plan[j]]
        0 <= i < plan.len() && 0 <= j < plan.len() && plan[i].step == plan[a].step && plan[j].step
            == plan[b].step implies i < j by {
        assert(plan[a] == plan[a] && plan[b] == plan[b]);
        assert(i == a);
        assert(j == b);
    }
}

/// A run in which every call returns 0 goes through the whole plan without
/// an error and records none.
pub proof fn lemma_clean_run_completes(v: RunnerView, os: Seq<CallOutcome>)
    requires
        !v.failed,
        v.recorded is None,
        v.done <= v.plan.len(),
        os.len() == v.plan.len() - v.done,
        forall|i: int| 0 <= i < os.len() ==> #[trigger] os[i] == CallOutcome::Returned(0),
    ensures
        runner_run(v, os) == (RunnerView { done: v.plan.len(), ..v }, None::<Seq<char>>),
    decreases os.len(),
{
    if os.len() > 0 {
        assert(os[0] == CallOutcome::Returned(0));
        let (v1, e) = runner_step(v, os[0]);
        assert(e is None);
        assert forall|i: int| 0 <= i < os.drop_first().len() implies #[trigger] os.drop_first()[i]
            == CallOutcome::Returned(0) by {
            assert(os.drop_first()[i] == os[i + 1]);
        }
        lemma_clean_run_completes(v1, os.drop_first());
    }
}

/// A plan none of whose remaining calls ends it on failure never returns an
/// error: whatever the outcomes, every remaining call is made.
pub proof fn lemma_run_without_abort(v: RunnerView, os: Seq<CallOutcome>)
    requires
        !v.failed,
        v.done <= v.plan.len(),
        os.len() == v.plan.len() - v.done,
        forall|i: int| v.done <= i < v.plan.len() ==> (#[trigger] v.plan[i]).policy != FailurePolicy::Abort,
    ensures
        runner_run(v, os).1 is None,
        runner_run(v, os).0.done == v.plan.len(),
        !runner_run(v, os).0.failed,
    decreases os.len(),
{
    if os.len() > 0 {
        let (v1, e) = runner_step(v, os[0]);
        assert(v.plan[v.done as int].policy != FailurePolicy::Abort);
        assert(e is None);
        lemma_run_without_abort(v1, os.drop_first());
    }
}

} // verus!
