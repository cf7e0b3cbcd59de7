//! The camera's streaming state and the decisions that follow from it:
//! which call sequence a request needs, whether a capture may go ahead, and
//! how a captured frame is assembled.
use vstd::prelude::*;

use crate::camera::{image_format_of, vpss_chn_of, CameraConfig, Frame};
use crate::error::{Error, Result};
use crate::pipeline::{
    init_calls, init_plan, release_plan, start_calls, start_plan, stop_calls, stop_plan,
    unchecked, vb_block_size, CallRunner, FailurePolicy, PipelineStep, PlannedCall,
};
use crate::types::FrameData;

verus! {

/// The state of a camera: its configuration and whether it is streaming.
pub struct SessionModel {
    /// The camera configuration.
    pub config: CameraConfig,
    /// Whether the video stream is running.
    pub streaming: bool,
}

/// The calls that a request to start the stream needs: none when the stream
/// already runs.
pub open spec fn start_request(m: SessionModel) -> Option<Seq<PlannedCall>> {
    if m.streaming {
        None
    } else {
        Some(start_plan(m.config))
    }
}

/// The state after a start request whose calls all succeeded (`completed`)
/// or not.
pub open spec fn after_start(m: SessionModel, completed: bool) -> SessionModel {
    SessionModel { config: m.config, streaming: m.streaming || completed }
}

/// The calls that a request to stop the stream needs: none when it is not
/// running.
pub open spec fn stop_request(m: SessionModel) -> Option<Seq<PlannedCall>> {
    if m.streaming {
        Some(stop_plan(m.config))
    } else {
        None
    }
}

/// The state after a stop request.
pub open spec fn after_stop(m: SessionModel) -> SessionModel {
    SessionModel { config: m.config, streaming: false }
}

/// The call a capture request makes: none (an error) when not streaming.
pub open spec fn capture_request(m: SessionModel) -> Option<PipelineStep> {
    if m.streaming {
        Some(
            PipelineStep::VpssGetChnFrame {
                grp: 0,
                chn: vpss_chn_of(m.config.channel),
                timeout_ms: 1000,
            },
        )
    } else {
        None
    }
}

/// The calls made when the camera is released: the stream's teardown when
/// it runs, then the system release.
pub open spec fn shutdown_plan(m: SessionModel) -> Seq<PlannedCall> {
    if m.streaming {
        stop_plan(m.config) + release_plan()
    } else {
        release_plan()
    }
}

/// The number of bytes a captured frame holds: the sum of its plane
/// lengths, or none when the frame has no mapped address or no length.
pub open spec fn captured_len(lengths: [u32; 3], mapped: bool) -> nat {
    let total = lengths[0] + lengths[1] + lengths[2];
    if mapped && total > 0 {
        total as nat
    } else {
        0
    }
}

/// The message of a capture request on a camera that is not streaming.
pub open spec fn not_streaming_message() -> Seq<char> {
    "camera is not streaming"@
}

/// The streaming state of a camera and the decisions that follow from it.
#[derive(Debug)]
pub struct CameraSession {
    config: CameraConfig,
    streaming: bool,
}

impl View for CameraSession {
    type V = SessionModel;

    closed spec fn view(&self) -> SessionModel {
        SessionModel { config: self.config, streaming: self.streaming }
    }
}

impl CameraSession {
    /// A camera with configuration `config` that is not streaming.
    pub fn new(config: CameraConfig) -> (s: Self)
        ensures
            s@.config == config,
            !s@.streaming,
    {
        CameraSession { config, streaming: false }
    }

    /// The current camera configuration.
    pub fn config(&self) -> (c: &CameraConfig)
        ensures
            *c == self@.config,
    {
        &self.config
    }

    /// Whether the camera is currently streaming.
    pub fn is_streaming(&self) -> (b: bool)
        ensures
            b == self@.streaming,
    {
        self.streaming
    }

    /// The calls that bring the camera system up.
    pub fn init_runner(&self) -> (r: CallRunner)
        requires
            vb_block_size(self@.config) <= u32::MAX,
        ensures
            r.plan() == init_plan(self@.config),
            r.done() == 0,
            !r.has_failed(),
            r.first_recorded() is None,
    {
        CallRunner::new(init_calls(&self.config))
    }

    /// The calls that starting the stream needs, or `None` when it already runs.
    pub fn start_stream(&self) -> (r: Option<CallRunner>)
        ensures
            match start_request(self@) {
                None => r is None,
                Some(p) => r matches Some(run) && run.plan() == p && run.done() == 0
                    && !run.has_failed() && run.first_recorded() is None,
            },
    {
        if self.streaming {
            None
        } else {
            Some(CallRunner::new(start_calls(&self.config)))
        }
    }

    /// Record the end of a start request: the camera streams once every
    /// call of the start plan succeeded.
    pub fn finish_start(&mut self, runner: &CallRunner)
        ensures
            final(self)@ == after_start(old(self)@, runner.completed()),
    {
        if runner.is_complete() {
            self.streaming = true;
        }
    }

    /// The calls that stopping the stream needs, or `None` when it is not
    /// running; the camera is no longer streaming afterwards.
    pub fn stop_stream(&mut self) -> (r: Option<CallRunner>)
        ensures
            final(self)@ == after_stop(old(self)@),
            match stop_request(old(self)@) {
                None => r is None,
                Some(p) => r matches Some(run) && run.plan() == p && run.done() == 0
                    && !run.has_failed() && run.first_recorded() is None,
            },
    {
        if self.streaming {
            self.streaming = false;
            Some(CallRunner::new(stop_calls(&self.config)))
        } else {
            None
        }
    }

    /// The call that fetches a frame, or the error that a camera which is not
    /// streaming gives.
    pub fn capture_step(&self) -> (r: Result<PipelineStep>)
        ensures
            match capture_request(self@) {
                Some(step) => r matches Ok(s) && s == step,
                None => r matches Err(Error::Camera(m)) && m@ == not_streaming_message(),
            },
    {
        if !self.streaming {
            return Err(Error::Camera(String::from_str("camera is not streaming")));
        }
        Ok(PipelineStep::VpssGetChnFrame { grp: 0, chn: self.config.channel.vpss_chn(), timeout_ms: 1000 })
    }

    /// The call that hands a fetched frame back to the hardware.
    pub fn release_step(&self) -> (s: PipelineStep)
        ensures
            s == (PipelineStep::VpssReleaseChnFrame { grp: 0, chn: vpss_chn_of(self@.config.channel) }),
    {
        PipelineStep::VpssReleaseChnFrame { grp: 0, chn: self.config.channel.vpss_chn() }
    }

    /// The frame made of the captured bytes and the frame's reported size
    /// and timestamp, in the image format of the configured channel.
    pub fn frame_from_capture(&self, data: Vec<u8>, width: u32, height: u32, pts: u64) -> (f: Frame)
        ensures
            f.data.data@ == data@,
            f.data.width == width,
            f.data.height == height,
            f.data.timestamp_ms == pts,
            f.data.format == image_format_of(self@.config.channel),
    {
        Frame {
            data: FrameData {
                data,
                width,
                height,
                format: self.config.channel.image_format(),
                timestamp_ms: pts,
            },
        }
    }

    /// The calls made when the camera is released; the camera is no longer
    /// streaming afterwards.
    pub fn shutdown(&mut self) -> (r: CallRunner)
        ensures
            r.plan() == shutdown_plan(old(self)@),
            r.done() == 0,
            !r.has_failed(),
            r.first_recorded() is None,
            final(self)@ == after_stop(old(self)@),
    {
        let mut calls = if self.streaming {
            stop_calls(&self.config)
        } else {
            Vec::new()
        };
        calls.push(PlannedCall { step: PipelineStep::SysExit, policy: FailurePolicy::Ignore });
        calls.push(PlannedCall { step: PipelineStep::VbExit, policy: FailurePolicy::Ignore });
        assert(calls@ =~= shutdown_plan(self@));
        self.streaming = false;
        CallRunner::new(calls)
    }
}

/// How many bytes to copy out of a captured frame whose planes have the
/// given lengths; none when it has no mapped address or no length.
pub fn captured_length(lengths: [u32; 3], mapped: bool) -> (n: usize)
    requires
        lengths[0] + lengths[1] + lengths[2] <= usize::MAX,
    ensures
        n == captured_len(lengths, mapped),
{
    let total = lengths[0] as usize + lengths[1] as usize + lengths[2] as usize;
    if mapped && total > 0 {
        total
    } else {
        0
    }
}


/// Starting is idempotent: once a start request has completed, a further
/// start request makes no calls and leaves the camera streaming.
pub proof fn lemma_start_idempotent(m: SessionModel)
    ensures
        start_request(after_start(m, true)) is None,
        after_start(after_start(m, true), true) == after_start(m, true),
        after_start(m, true).streaming,
{
}

/// Stopping is idempotent: after a stop, a further stop request makes no
/// calls and changes nothing.
pub proof fn lemma_stop_idempotent(m: SessionModel)
    ensures
        stop_request(after_stop(m)) is None,
        after_stop(after_stop(m)) == after_stop(m),
        !after_stop(m).streaming,
{
}

/// A start request that did not complete leaves the camera as it was.
pub proof fn lemma_failed_start_unchanged(m: SessionModel)
    ensures
        after_start(m, false) == m,
{
}

/// Capturing needs a running stream: after a stop a capture request is an
/// error until a start request completes, after which it fetches from the
/// configured channel.
pub proof fn lemma_capture_follows_stream(m: SessionModel)
    ensures
        capture_request(after_stop(m)) is None,
        capture_request(after_start(after_stop(m), false)) is None,
        capture_request(after_start(after_stop(m), true)) == Some(
            PipelineStep::VpssGetChnFrame { grp: 0, chn: vpss_chn_of(m.config.channel), timeout_ms: 1000 },
        ),
{
}

/// Stopping and starting again runs the whole start plan anew with the same
/// configuration.
pub proof fn lemma_restart(m: SessionModel)
    ensures
        after_stop(m).config == m.config,
        after_start(m, true).config == m.config,
        start_request(after_stop(m)) == Some(start_plan(m.config)),
        m.streaming ==> stop_request(m) == Some(stop_plan(m.config)),
{
}

/// Stopping and shutting down never end early: every stage of the stop plan
/// is attempted (its failures are reported once it is over, the thread
/// join's is ignored) and no call of the shutdown plan ends it; every call
/// of the start plan except the ISP thread start ends the plan on failure.
pub proof fn lemma_plan_policies(m: SessionModel)
    ensures
        forall|i: int|
            0 <= i < stop_plan(m.config).len() ==> (#[trigger] stop_plan(m.config)[i]).policy
                != FailurePolicy::Abort,
        forall|i: int|
            0 <= i < stop_plan(m.config).len() ==> ((#[trigger] stop_plan(m.config)[i]).policy
                == FailurePolicy::Record <==> i != 1),
        forall|i: int|
            0 <= i < shutdown_plan(m).len() ==> (#[trigger] shutdown_plan(m)[i]).policy
                != FailurePolicy::Abort,
        forall|i: int|
            0 <= i < start_plan(m.config).len() ==> ((#[trigger] start_plan(m.config)[i]).policy
                == FailurePolicy::Abort <==> i != 8),
        start_plan(m.config)[8] == unchecked(PipelineStep::StartIspRun { pipe: 0 }),
{
    assert forall|i: int| 0 <= i < shutdown_plan(m).len() implies (
    #[trigger] shutdown_plan(m)[i]).policy != FailurePolicy::Abort by {
        if m.streaming {
            if i < 9 {
                assert(shutdown_plan(m)[i] == stop_plan(m.config)[i]);
            } else {
                assert(shutdown_plan(m)[i] == release_plan()[i - 9]);
            }
        }
    }
}



/// Releasing the camera always ends by exiting the system and then the
/// video buffers, whatever the streaming state; before those two calls it
/// makes exactly the calls a stop request needs: the stream's teardown when
/// it runs, nothing otherwise.
pub proof fn lemma_shutdown_releases_system(m: SessionModel)
    ensures
        shutdown_plan(m).len() >= 2,
        shutdown_plan(m)[shutdown_plan(m).len() - 2] == unchecked(PipelineStep::SysExit),
        shutdown_plan(m)[shutdown_plan(m).len() - 1] == unchecked(PipelineStep::VbExit),
        shutdown_plan(m).subrange(0, shutdown_plan(m).len() - 2) == match stop_request(m) {
            Some(p) => p,
            None => Seq::<PlannedCall>::empty(),
        },
{
    let p = shutdown_plan(m);
    if m.streaming {
        assert(p.subrange(0, p.len() - 2) =~= stop_plan(m.config));
    } else {
        assert(p.subrange(0, p.len() - 2) =~= Seq::<PlannedCall>::empty());
    }
}

} // verus!
