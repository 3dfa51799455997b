use link_yeeter::error::{ExtractionFault, PipelineError};
use link_yeeter::probe::Probe;
use link_yeeter::task::{deliver_result, to_task_result, TaskOutput, TaskResult};

fn sample_output() -> TaskOutput {
    TaskOutput {
        dir: tempfile::TempDir::new().unwrap(),
        video_path: "/tmp/video.mp4".to_owned(),
        thumbnail_path: None,
        metadata: Probe { duration: 10, bitrate: 800, width: 640, height: 360 },
        reduced_bitrate: None,
    }
}

#[test]
fn failures_become_their_reason_text() {
    let r = to_task_result(Err(PipelineError::QualityDegradation));
    assert_eq!(r.unwrap_err(), "API-adjusted bitrate is too low");
    let r = to_task_result(Err(PipelineError::Extraction {
        fault: ExtractionFault::FileCount { count: 3 },
    }));
    assert_eq!(r.unwrap_err(), "3 files found, expected 1");
    let r = to_task_result(Err(PipelineError::Extraction {
        fault: ExtractionFault::ExitStatus { code: -1 },
    }));
    assert_eq!(r.unwrap_err(), "yt-dlp failed with status code -1");
    let r = to_task_result(Err(PipelineError::SizeLimit { cap_mb: 1000 }));
    assert_eq!(r.unwrap_err(), "base file size exceeded 1000 MB");
}

#[test]
fn successes_keep_their_output() {
    let r = to_task_result(Ok(sample_output()));
    let boxed = r.unwrap();
    assert_eq!(boxed.video_path, "/tmp/video.mp4");
    assert_eq!(boxed.metadata.bitrate, 800);
    assert_eq!(boxed.reduced_bitrate, None);
}

#[test]
fn delivery_reaches_a_live_receiver() {
    let (tx, mut rx) = tokio::sync::oneshot::channel::<TaskResult>();
    let sent = deliver_result(tx, Err("reason".to_owned()));
    assert!(sent.is_ok());
    match rx.try_recv() {
        Ok(Err(reason)) => assert_eq!(reason, "reason"),
        _ => panic!("expected the failure to arrive"),
    }
}

#[test]
fn delivery_to_a_gone_receiver_hands_the_value_back() {
    let (tx, rx) = tokio::sync::oneshot::channel::<TaskResult>();
    drop(rx);
    match deliver_result(tx, Err("reason".to_owned())) {
        Err(Err(reason)) => assert_eq!(reason, "reason"),
        _ => panic!("expected the value back"),
    }
}

#[test]
fn the_output_owns_its_directory() {
    let output = sample_output();
    let path = output.dir.path().to_path_buf();
    assert!(path.exists());
    drop(output);
    assert!(!path.exists());
}
