use recamera::camera::{CameraConfig, Channel, PixelFormat};
use recamera::error::Error;
use recamera::pipeline::{
    check_outcome, init_calls, start_calls, stop_calls, CallOutcome, CallRunner, FailurePolicy,
    PipelineStep,
};
use recamera::sensor::{ProbeVerdict, SensorProbe, SENSOR_COUNT};
use recamera::session::{captured_length, CameraSession};
use recamera::types::{ImageFormat, Resolution};

fn config(channel: Channel) -> CameraConfig {
    CameraConfig { resolution: Resolution::new(640, 480), fps: 15, channel }
}

#[test]
fn init_plan_sizes_buffers_for_rgb_frames() {
    let calls = init_calls(&config(Channel::Jpeg));
    assert_eq!(calls.len(), 8);
    assert_eq!(calls[0].policy, FailurePolicy::Ignore);
    assert_eq!(calls[0].step, PipelineStep::SysExit);
    assert_eq!(calls[1].step, PipelineStep::VbExit);
    assert_eq!(
        calls[3].step,
        PipelineStep::VbSetConfig { max_pool_cnt: 1, blk_size: 640 * 480 * 3, blk_cnt: 4 }
    );
    assert!(calls[2..].iter().all(|c| c.policy == FailurePolicy::Abort));
}

#[test]
fn start_plan_uses_configured_channel() {
    let calls = start_calls(&config(Channel::Raw));
    assert_eq!(calls.len(), 15);
    assert_eq!(calls[0].step, PipelineStep::ViSetDevAttr { dev: 0, width: 640, height: 480 });
    assert_eq!(
        calls[12].step,
        PipelineStep::VpssSetChnAttr { grp: 0, chn: 0, width: 640, height: 480, format: PixelFormat::Rgb888 }
    );
    assert_eq!(calls[8].step, PipelineStep::StartIspRun { pipe: 0 });
    assert_eq!(calls[8].policy, FailurePolicy::Ignore);
    let h264 = start_calls(&config(Channel::H264));
    assert_eq!(h264[13].step, PipelineStep::VpssEnableChn { grp: 0, chn: 2 });
}

#[test]
fn stop_plan_attempts_every_stage() {
    let calls = stop_calls(&config(Channel::Jpeg));
    assert_eq!(calls.len(), 9);
    assert!(calls.iter().all(|c| c.policy != FailurePolicy::Abort));
    assert_eq!(calls[1], recamera::pipeline::PlannedCall { step: PipelineStep::JoinIspRun, policy: FailurePolicy::Ignore });
    assert_eq!(calls[0].step, PipelineStep::IspExit { pipe: 0 });
    assert_eq!(calls[3].step, PipelineStep::VpssDisableChn { grp: 0, chn: 1 });
    assert_eq!(calls[8].step, PipelineStep::ViDisableDev { dev: 0 });
}

#[test]
fn check_outcome_messages() {
    assert!(check_outcome("VI_EnableDev", &CallOutcome::Returned(0)).is_ok());
    match check_outcome("VI_EnableDev", &CallOutcome::Returned(-1)) {
        Err(Error::Camera(m)) => assert_eq!(m, "CVI_VI_EnableDev failed (rc=-1)"),
        other => panic!("unexpected {:?}", other),
    }
    match check_outcome("VB_Init", &CallOutcome::SymbolMissing("undefined symbol".into())) {
        Err(Error::Camera(m)) => assert_eq!(m, "VB_Init symbol: undefined symbol"),
        other => panic!("unexpected {:?}", other),
    }
}

#[test]
fn runner_stops_at_first_failed_checked_call() {
    let mut runner = CallRunner::new(start_calls(&config(Channel::Jpeg)));
    assert_eq!(runner.next_call(), Some(PipelineStep::ViSetDevAttr { dev: 0, width: 640, height: 480 }));
    assert!(runner.report(&CallOutcome::Returned(0)).is_ok());
    assert_eq!(runner.next_call(), Some(PipelineStep::ViEnableDev { dev: 0 }));
    match runner.report(&CallOutcome::Returned(5)) {
        Err(Error::Camera(m)) => assert_eq!(m, "CVI_VI_EnableDev failed (rc=5)"),
        other => panic!("unexpected {:?}", other),
    }
    assert_eq!(runner.next_call(), None);
    assert!(!runner.is_complete());
}

#[test]
fn runner_attempts_whole_teardown_and_reports_first_failure() {
    let mut runner = CallRunner::new(stop_calls(&config(Channel::Jpeg)));
    let mut count = 0;
    while let Some(step) = runner.next_call() {
        let outcome = match step {
            PipelineStep::VpssDestroyGrp { .. } => CallOutcome::Returned(-4),
            PipelineStep::ViStopPipe { .. } => CallOutcome::Returned(-9),
            _ => CallOutcome::Returned(0),
        };
        assert!(runner.report(&outcome).is_ok());
        count += 1;
    }
    assert_eq!(count, 9);
    assert!(runner.is_complete());
    match runner.recorded_result() {
        Err(Error::Camera(m)) => assert_eq!(m, "CVI_VPSS_DestroyGrp failed (rc=-4)"),
        other => panic!("unexpected {:?}", other),
    }
    let mut clean = CallRunner::new(stop_calls(&config(Channel::Raw)));
    while clean.next_call().is_some() {
        clean.report(&CallOutcome::Returned(0)).unwrap();
    }
    assert!(clean.recorded_result().is_ok());
}

#[test]
fn runner_ignores_ignored_failures() {
    let mut session = CameraSession::new(config(Channel::Jpeg));
    let mut runner = session.shutdown();
    while runner.next_call().is_some() {
        assert!(runner.report(&CallOutcome::SymbolMissing("x".into())).is_ok());
    }
    assert!(runner.is_complete());
    assert!(runner.recorded_result().is_ok());
}

#[test]
fn session_lifecycle() {
    let mut session = CameraSession::new(config(Channel::Jpeg));
    assert!(!session.is_streaming());
    match session.capture_step() {
        Err(Error::Camera(m)) => assert_eq!(m, "camera is not streaming"),
        other => panic!("unexpected {:?}", other),
    }
    assert!(session.stop_stream().is_none());
    let mut runner = session.start_stream().expect("start plan");
    while runner.next_call().is_some() {
        runner.report(&CallOutcome::Returned(0)).unwrap();
    }
    session.finish_start(&runner);
    assert!(session.is_streaming());
    assert!(session.start_stream().is_none());
    assert_eq!(
        session.capture_step().unwrap(),
        PipelineStep::VpssGetChnFrame { grp: 0, chn: 1, timeout_ms: 1000 }
    );
    let frame = session.frame_from_capture(vec![1, 2, 3], 640, 480, 99);
    assert_eq!(frame.format(), ImageFormat::Jpeg);
    assert_eq!(frame.as_bytes(), &[1, 2, 3]);
    assert_eq!(frame.timestamp_ms(), 99);
    let stop = session.stop_stream().expect("stop plan");
    assert!(!session.is_streaming());
    assert_eq!(stop.next_call(), Some(PipelineStep::IspExit { pipe: 0 }));
    assert!(session.capture_step().is_err());
}

#[test]
fn failed_start_leaves_camera_stopped() {
    let mut session = CameraSession::new(config(Channel::Raw));
    let mut runner = session.start_stream().unwrap();
    runner.report(&CallOutcome::Returned(0)).unwrap();
    assert!(runner.report(&CallOutcome::SymbolMissing("gone".into())).is_err());
    session.finish_start(&runner);
    assert!(!session.is_streaming());
}

#[test]
fn shutdown_includes_teardown_only_when_streaming() {
    let mut idle = CameraSession::new(config(Channel::Jpeg));
    let mut r = idle.shutdown();
    assert_eq!(r.next_call(), Some(PipelineStep::SysExit));
    r.report(&CallOutcome::Returned(1)).unwrap();
    assert_eq!(r.next_call(), Some(PipelineStep::VbExit));
    r.report(&CallOutcome::Returned(1)).unwrap();
    assert_eq!(r.next_call(), None);

    let mut live = CameraSession::new(config(Channel::Jpeg));
    let mut s = live.start_stream().unwrap();
    while s.next_call().is_some() {
        s.report(&CallOutcome::Returned(0)).unwrap();
    }
    live.finish_start(&s);
    let r = live.shutdown();
    assert_eq!(r.next_call(), Some(PipelineStep::IspExit { pipe: 0 }));
    assert!(!live.is_streaming());
}

#[test]
fn sensor_probe_skips_and_detects() {
    let mut probe = SensorProbe::new();
    assert_eq!(SENSOR_COUNT, 2);
    assert_eq!(probe.next_sensor(), Some(0));
    assert_eq!(SensorProbe::object_name(0), "stSnsGc2053_Obj");
    probe.object_missing();
    assert_eq!(probe.next_sensor(), Some(1));
    assert_eq!(SensorProbe::object_name(1), "stSnsOv5647_Obj");
    match probe.init_outcome(&CallOutcome::Returned(0)) {
        ProbeVerdict::Detected(i) => assert_eq!(i, 1),
        other => panic!("unexpected {:?}", other),
    }
}

#[test]
fn sensor_probe_exhausts_and_fails() {
    let mut probe = SensorProbe::new();
    assert!(matches!(probe.init_outcome(&CallOutcome::Returned(-1)), ProbeVerdict::TryNext));
    assert!(matches!(probe.init_outcome(&CallOutcome::Returned(-1)), ProbeVerdict::TryNext));
    assert_eq!(probe.next_sensor(), None);
    match SensorProbe::no_sensor_error() {
        Error::Camera(m) => assert_eq!(m, "no supported sensor detected (tried GC2053, OV5647)"),
        other => panic!("unexpected {:?}", other),
    }
    let mut probe = SensorProbe::new();
    match probe.init_outcome(&CallOutcome::SymbolMissing("nope".into())) {
        ProbeVerdict::Failed(Error::Camera(m)) => assert_eq!(m, "ISP_SnsInit symbol: nope"),
        other => panic!("unexpected {:?}", other),
    }
}

#[test]
fn captured_length_rules() {
    assert_eq!(captured_length([10, 5, 5], true), 20);
    assert_eq!(captured_length([10, 5, 5], false), 0);
    assert_eq!(captured_length([0, 0, 0], true), 0);
}
