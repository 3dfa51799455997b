use link_yeeter::bitrate::{compute_max_bitrate, decide_bitrate, quality_cutoff, UPLOAD_LIMIT_MB};
use link_yeeter::error::PipelineError;
use link_yeeter::probe::Probe;

fn probe(duration: u32, bitrate: u32) -> Probe {
    Probe { duration, bitrate, width: 1280, height: 720 }
}

#[test]
fn short_clip_is_not_reduced() {
    // 60 s at a 50 MB budget: capacity 6666 kbps, minus audio 6538, times
    // 0.97 gives 6342; a 1000 kbps source stays unconstrained.
    assert_eq!(compute_max_bitrate(UPLOAD_LIMIT_MB, 60), Some(6342));
    let d = decide_bitrate(&probe(60, 1000), false).unwrap();
    assert_eq!(d.max_bitrate, Some(6342));
    assert!(!d.reduced);
    assert_eq!(d.target(), None);
}

#[test]
fn long_clip_without_fallback_is_rejected() {
    // 600 s at a 50 MB budget: capacity 666 kbps, minus audio 538, times
    // 0.97 gives 522; under the 850 cutoff of a 1000 kbps source.
    assert_eq!(compute_max_bitrate(UPLOAD_LIMIT_MB, 600), Some(522));
    assert_eq!(quality_cutoff(1000), 850);
    let r = decide_bitrate(&probe(600, 1000), false);
    assert_eq!(r, Err(PipelineError::QualityDegradation));
}

#[test]
fn long_clip_with_fallback_is_reduced() {
    let d = decide_bitrate(&probe(600, 1000), true).unwrap();
    assert_eq!(d.max_bitrate, Some(522));
    assert!(d.reduced);
    assert_eq!(d.target(), Some(522));
}

#[test]
fn unknown_duration_skips_the_constraint() {
    assert_eq!(compute_max_bitrate(UPLOAD_LIMIT_MB, 0), None);
    let d = decide_bitrate(&probe(0, 1000), false).unwrap();
    assert_eq!(d.max_bitrate, None);
    assert!(!d.reduced);
    assert_eq!(d.target(), None);
}

#[test]
fn zero_bitrate_source_is_never_rejected() {
    // an unprobeable bitrate gives a cutoff of zero, so the check passes
    let d = decide_bitrate(&probe(600, 0), false).unwrap();
    assert_eq!(d.max_bitrate, Some(522));
    assert!(!d.reduced);
    assert_eq!(d.target(), None);
}

#[test]
fn capacity_below_audio_reserve_clamps_to_zero() {
    // 4_000_000 s: the audio reserve alone exceeds the capacity
    assert_eq!(compute_max_bitrate(UPLOAD_LIMIT_MB, 4_000_000), Some(0));
    let d = decide_bitrate(&probe(4_000_000, 100), true).unwrap();
    assert_eq!(d.max_bitrate, Some(0));
    assert!(d.reduced);
    assert_eq!(d.target(), Some(0));
}

#[test]
fn cutoff_rounds_down() {
    assert_eq!(quality_cutoff(999), 849);
    assert_eq!(quality_cutoff(0), 0);
    assert_eq!(quality_cutoff(u32::MAX), (85u64 * u32::MAX as u64 / 100) as u32);
}

#[test]
fn boundary_at_the_cutoff_is_accepted() {
    // max equal to or above the cutoff is not "less than": no rejection,
    // but the 614 kbps source still exceeds 522 and is reduced
    assert_eq!(quality_cutoff(614), 521);
    let d = decide_bitrate(&probe(600, 614), false).unwrap();
    assert_eq!(d.max_bitrate, Some(522));
    assert!(d.reduced);
    assert_eq!(d.target(), Some(522));
}
