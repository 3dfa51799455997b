//! Video metadata as reported by the probing collaborator, and its
//! extraction from a raw probe report.

use vstd::prelude::*;

use crate::decimal::spec_parse_i32;
use crate::decimal::parse_i32;
use crate::text::str_eq;

verus! {

/// Metadata of a video file: duration in seconds, overall bitrate in kilobits
/// per second, and the frame dimensions in pixels.
///
/// A field is zero when the prober could not determine it; an all-zero value
/// is the "unknown" sentinel used when no video stream was found at all.
#[derive(Clone, Copy, PartialEq, Eq, Structural, Debug)]
pub struct Probe {
    /// Duration of the clip in whole seconds.
    pub duration: u32,
    /// Overall bitrate in kilobits per second.
    pub bitrate: u32,
    /// Frame width in pixels.
    pub width: u32,
    /// Frame height in pixels.
    pub height: u32,
}

impl Probe {
    /// True when every field carries the "unknown" sentinel.
    pub open spec fn is_unknown(self) -> bool {
        self == (Probe { duration: 0, bitrate: 0, width: 0, height: 0 })
    }
}

impl Default for Probe {
    /// The all-zero "unknown" metadata.
    fn default() -> (r: Self)
        ensures
            r.is_unknown(),
    {
        Probe { duration: 0, bitrate: 0, width: 0, height: 0 }
    }
}

/// One stream of a probe report, reduced to the fields the extraction reads.
#[derive(Clone, PartialEq, Debug)]
pub struct StreamInfo {
    /// The stream's codec type; a video stream reports "video".
    pub codec_type: Option<String>,
    /// Frame width in pixels, when the stream carries one.
    pub width: Option<i64>,
    /// Frame height in pixels, when the stream carries one.
    pub height: Option<i64>,
}

/// A raw probe report: the probed streams and the container-level fields the
/// extraction reads, all as the prober textually reports them.
#[derive(Clone, PartialEq, Debug)]
pub struct ProbeReport {
    /// The streams of the container, in report order.
    pub streams: Vec<StreamInfo>,
    /// The container's overall bitrate in bits per second, as decimal text.
    pub bit_rate: Option<String>,
    /// The container's duration in whole seconds, when it parses.
    pub duration_secs: Option<u64>,
}

/// Whether a stream declares itself a video stream.
pub open spec fn spec_is_video(s: StreamInfo) -> bool {
    match s.codec_type {
        Some(t) => t@ == "video"@,
        None => false,
    }
}

/// Index of the first video stream, or -1 when there is none.
pub open spec fn spec_first_video(streams: Seq<StreamInfo>) -> int
    decreases streams.len(),
{
    if streams.len() == 0 {
        -1
    } else if spec_is_video(streams[0]) {
        0
    } else {
        let rest = spec_first_video(streams.drop_first());
        if rest < 0 {
            -1
        } else {
            1 + rest
        }
    }
}

/// A pixel dimension clamped into `u32`: values out of range, like a missing
/// field, degrade to the "unknown" zero.
pub open spec fn spec_dimension(d: Option<i64>) -> u32 {
    match d {
        Some(v) => if 0 <= v <= u32::MAX {
            v as u32
        } else {
            0
        },
        None => 0,
    }
}

/// The bitrate in kilobits per second read from the report's decimal text:
/// unparsable or negative text degrades to zero, then bits become kilobits.
pub open spec fn spec_bitrate_kbps(bit_rate: Option<String>) -> u32 {
    let parsed = match bit_rate {
        Some(s) => spec_parse_i32(s@),
        None => Some(0i32),
    };
    let value = match parsed {
        Some(v) => v,
        None => 0i32,
    };
    let clamped: u32 = if value >= 0 {
        value as u32
    } else {
        0
    };
    (clamped / 1000) as u32
}

/// The duration in whole seconds, degraded to zero when missing or out of
/// the range of `u32`.
pub open spec fn spec_duration_secs(d: Option<u64>) -> u32 {
    match d {
        Some(v) => if v <= u32::MAX {
            v as u32
        } else {
            0
        },
        None => 0,
    }
}

/// The metadata extracted from a report whose first video stream is `s`.
pub open spec fn spec_probe_of(report: ProbeReport, s: StreamInfo) -> Probe {
    Probe {
        duration: spec_duration_secs(report.duration_secs),
        bitrate: spec_bitrate_kbps(report.bit_rate),
        width: spec_dimension(s.width),
        height: spec_dimension(s.height),
    }
}

/// What the extraction returns: the metadata of the first video stream, or
/// nothing when the report holds no video stream.
pub open spec fn spec_ffprobe(report: ProbeReport) -> Option<Probe> {
    let fv = spec_first_video(report.streams@);
    if fv < 0 {
        None
    } else {
        Some(spec_probe_of(report, report.streams@[fv]))
    }
}

/// When no stream of `s` is a video stream, there is no first video stream.
proof fn lemma_no_video(streams: Seq<StreamInfo>)
    requires
        forall|j: int| 0 <= j < streams.len() ==> !spec_is_video(#[trigger] streams[j]),
    ensures
        spec_first_video(streams) == -1,
    decreases streams.len(),
{
    if streams.len() > 0 {
        lemma_no_video(streams.drop_first());
    }
}

/// When position `i` holds a video stream and no earlier position does, `i`
/// is the first video stream.
proof fn lemma_first_video_at(streams: Seq<StreamInfo>, i: int)
    requires
        0 <= i < streams.len(),
        spec_is_video(streams[i]),
        forall|j: int| 0 <= j < i ==> !spec_is_video(#[trigger] streams[j]),
    ensures
        spec_first_video(streams) == i,
    decreases i,
{
    if i > 0 {
        lemma_first_video_at(streams.drop_first(), i - 1);
    }
}

/// Extract the playback metadata from a raw probe report: the dimensions of
/// the first video stream, the container's bitrate and duration. Returns
/// `None` when the report holds no video stream.
pub fn ffprobe(report: &ProbeReport) -> (r: Option<Probe>)
    ensures
        r == spec_ffprobe(*report),
{
    let n = report.streams.len();
    let mut i: usize = 0;
    while i < n
        invariant
            0 <= i <= n,
            n == report.streams@.len(),
            forall|j: int| 0 <= j < i ==> !spec_is_video(#[trigger] report.streams@[j]),
        decreases n - i,
    {
        let stream = &report.streams[i];
        let is_video = match &stream.codec_type {
            Some(t) => str_eq(t.as_str(), "video"),
            None => false,
        };
        if is_video {
            proof {
                lemma_first_video_at(report.streams@, i as int);
            }
            let width = match stream.width {
                Some(v) => if 0 <= v && v <= 0xffff_ffffi64 {
                    v as u32
                } else {
                    0
                },
                None => 0,
            };
            let height = match stream.height {
                Some(v) => if 0 <= v && v <= 0xffff_ffffi64 {
                    v as u32
                } else {
                    0
                },
                None => 0,
            };
            let parsed = match &report.bit_rate {
                Some(s) => parse_i32(s.as_str()),
                None => Some(0i32),
            };
            let value = match parsed {
                Some(v) => v,
                None => 0i32,
            };
            let clamped: u32 = if value >= 0 {
                value as u32
            } else {
                0
            };
            let bitrate = clamped / 1000;
            let duration = match report.duration_secs {
                Some(v) => if v <= 0xffff_ffffu64 {
                    v as u32
                } else {
                    0
                },
                None => 0,
            };
            return Some(Probe { duration, bitrate, width, height });
        }
        i = i + 1;
    }
    proof {
        lemma_no_video(report.streams@);
    }
    None
}

} // verus!
