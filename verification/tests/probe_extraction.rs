use link_yeeter::probe::{ffprobe, Probe, ProbeReport, StreamInfo};

fn video_stream(width: i64, height: i64) -> StreamInfo {
    StreamInfo { codec_type: Some("video".to_owned()), width: Some(width), height: Some(height) }
}

fn audio_stream() -> StreamInfo {
    StreamInfo { codec_type: Some("audio".to_owned()), width: None, height: None }
}

#[test]
fn extracts_the_video_stream() {
    let report = ProbeReport {
        streams: vec![audio_stream(), video_stream(1920, 1080)],
        bit_rate: Some("5000000".to_owned()),
        duration_secs: Some(61),
    };
    let p = ffprobe(&report).unwrap();
    assert_eq!(p, Probe { duration: 61, bitrate: 5000, width: 1920, height: 1080 });
}

#[test]
fn no_video_stream_yields_nothing() {
    let report = ProbeReport {
        streams: vec![audio_stream()],
        bit_rate: Some("5000000".to_owned()),
        duration_secs: Some(61),
    };
    assert!(ffprobe(&report).is_none());
    let empty = ProbeReport { streams: vec![], bit_rate: None, duration_secs: None };
    assert!(ffprobe(&empty).is_none());
}

#[test]
fn first_video_stream_wins() {
    let report = ProbeReport {
        streams: vec![video_stream(640, 480), video_stream(1920, 1080)],
        bit_rate: None,
        duration_secs: None,
    };
    let p = ffprobe(&report).unwrap();
    assert_eq!(p.width, 640);
    assert_eq!(p.height, 480);
}

#[test]
fn missing_fields_degrade_to_zero() {
    let report = ProbeReport {
        streams: vec![StreamInfo { codec_type: Some("video".to_owned()), width: None, height: None }],
        bit_rate: None,
        duration_secs: None,
    };
    let p = ffprobe(&report).unwrap();
    assert_eq!(p, Probe { duration: 0, bitrate: 0, width: 0, height: 0 });
}

#[test]
fn malformed_bitrate_degrades_to_zero() {
    let report = ProbeReport {
        streams: vec![video_stream(1, 1)],
        bit_rate: Some("N/A".to_owned()),
        duration_secs: Some(10),
    };
    assert_eq!(ffprobe(&report).unwrap().bitrate, 0);
}

#[test]
fn out_of_range_values_degrade_to_zero() {
    let report = ProbeReport {
        streams: vec![video_stream(-1, 1 << 40)],
        bit_rate: Some("2147483648".to_owned()),
        duration_secs: Some(u64::from(u32::MAX) + 1),
    };
    let p = ffprobe(&report).unwrap();
    assert_eq!(p.width, 0);
    assert_eq!(p.height, 0);
    assert_eq!(p.bitrate, 0);
    assert_eq!(p.duration, 0);
}

#[test]
fn default_probe_is_the_unknown_sentinel() {
    assert_eq!(Probe::default(), Probe { duration: 0, bitrate: 0, width: 0, height: 0 });
}
