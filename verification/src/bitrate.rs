//! The bitrate-decision stage: from probed metadata to an encoding target.
//!
//! A clip must fit into a fixed upload budget. Spread over the clip's
//! duration, the budget yields a capacity in kilobits per second; after
//! reserving room for the audio track and a container-overhead margin, the
//! remainder is the highest video bitrate the upload can afford. A source
//! already below that bound is encoded unconstrained; otherwise it is reduced
//! to the bound, unless the reduction would degrade quality past a policy
//! threshold and the caller did not opt into fallback.

use vstd::prelude::*;

use crate::error::PipelineError;
use crate::probe::Probe;

verus! {

/// Upload size ceiling of the delivery service, in megabytes.
pub const UPLOAD_LIMIT_MB: u32 = 50;

/// The highest affordable video bitrate in kbps, as an exact rational floor
/// with 128 kbps reserved for the audio track and a 3% container-overhead
/// margin:
///
/// `floor(0.97 * (limit_mb * 8000 / duration - 128))`
///
/// which over the integers is
/// `(97 * (8000 * limit_mb - 128 * duration)) / (100 * duration)`.
///
/// The value is clamped to zero when the audio reserve alone exceeds the
/// capacity, and to `u32::MAX` above. Meaningful only for `duration > 0`.
pub open spec fn spec_max_bitrate(limit_mb: nat, duration: nat) -> nat
    recommends
        duration > 0,
{
    if 8000 * limit_mb <= 128 * duration {
        0
    } else {
        let exact: int = (97 * (8000 * (limit_mb as int) - 128 * (duration as int))) / (100 * (
        duration as int));
        if exact > u32::MAX { u32::MAX as nat } else { exact as nat }
    }
}

/// The quality-degradation cutoff: 85% of the original bitrate, rounded down.
pub open spec fn spec_quality_cutoff(bitrate: nat) -> nat {
    (85 * bitrate) / 100
}

/// Whether the bitrate decision rejects the task: a target bitrate exists,
/// it falls short of the cutoff, and the caller did not allow fallback.
pub open spec fn spec_rejects(metadata: Probe, enable_fallback: bool) -> bool {
    &&& metadata.duration > 0
    &&& spec_max_bitrate(UPLOAD_LIMIT_MB as nat, metadata.duration as nat) < spec_quality_cutoff(
        metadata.bitrate as nat,
    )
    &&& !enable_fallback
}

/// Whether the source has to be re-encoded at a reduced bitrate: a target
/// exists and the original bitrate does not fall below it.
pub open spec fn spec_reduced(metadata: Probe) -> bool {
    &&& metadata.duration > 0
    &&& metadata.bitrate >= spec_max_bitrate(UPLOAD_LIMIT_MB as nat, metadata.duration as nat)
}

/// The decision taken on a probed clip: the computed target when the
/// duration is known, and whether the source has to be reduced to it.
pub open spec fn spec_decision(metadata: Probe) -> BitrateDecision {
    BitrateDecision {
        max_bitrate: if metadata.duration > 0 {
            Some(spec_max_bitrate(UPLOAD_LIMIT_MB as nat, metadata.duration as nat) as u32)
        } else {
            None
        },
        reduced: spec_reduced(metadata),
    }
}

/// Outcome of the bitrate decision.
#[derive(Clone, Copy, PartialEq, Eq, Structural, Debug)]
pub struct BitrateDecision {
    /// The highest affordable video bitrate, absent when the duration is
    /// unknown and no target can be computed.
    pub max_bitrate: Option<u32>,
    /// Whether the source exceeds `max_bitrate` and is re-encoded down to it.
    pub reduced: bool,
}

impl BitrateDecision {
    /// The bitrate constraint handed to the transcoder: the computed target
    /// when the source is reduced, otherwise none.
    pub open spec fn spec_target(self) -> Option<u32> {
        if self.reduced {
            self.max_bitrate
        } else {
            None
        }
    }

    /// Exec twin of [`Self::spec_target`].
    pub fn target(&self) -> (r: Option<u32>)
        ensures
            r == self.spec_target(),
    {
        if self.reduced {
            self.max_bitrate
        } else {
            None
        }
    }
}

/// Compute the highest affordable video bitrate for a clip of the given
/// duration, or `None` when the duration is unknown.
pub fn compute_max_bitrate(limit_mb: u32, duration: u32) -> (r: Option<u32>)
    ensures
        r is None <==> duration == 0,
        duration > 0 ==> r == Some(
            spec_max_bitrate(limit_mb as nat, duration as nat) as u32,
        ),
{
    if duration == 0 {
        None
    } else {
        let budget: u64 = 8000u64 * (limit_mb as u64);
        let reserve: u64 = 128u64 * (duration as u64);
        if budget <= reserve {
            Some(0)
        } else {
            let exact: u64 = (97u64 * (budget - reserve)) / (100u64 * (duration as u64));
            if exact > 0xffff_ffffu64 {
                Some(u32::MAX)
            } else {
                Some(exact as u32)
            }
        }
    }
}

/// Compute the quality-degradation cutoff for an original bitrate.
pub fn quality_cutoff(bitrate: u32) -> (r: u32)
    ensures
        r == spec_quality_cutoff(bitrate as nat),
{
    let wide: u64 = (85u64 * (bitrate as u64)) / 100u64;
    proof {
        assert(85 * (bitrate as nat) / 100 <= 85 * (u32::MAX as nat) / 100) by (nonlinear_arith)
            requires
                bitrate <= u32::MAX,
        ;
    }
    wide as u32
}

/// The bitrate decision: reject when the forced reduction would degrade
/// quality past the cutoff without fallback enabled; otherwise report the
/// target and whether the source is reduced to it.
pub fn decide_bitrate(metadata: &Probe, enable_fallback: bool) -> (r: Result<
    BitrateDecision,
    PipelineError,
>)
    ensures
        r is Err <==> spec_rejects(*metadata, enable_fallback),
        r is Err ==> r->Err_0 == PipelineError::QualityDegradation,
        r is Ok ==> r->Ok_0 == spec_decision(*metadata),
{
    let max_bitrate = compute_max_bitrate(UPLOAD_LIMIT_MB, metadata.duration);
    match max_bitrate {
        Some(max) => {
            let cutoff = quality_cutoff(metadata.bitrate);
            if max < cutoff && !enable_fallback {
                Err(PipelineError::QualityDegradation)
            } else {
                Ok(BitrateDecision { max_bitrate: Some(max), reduced: metadata.bitrate >= max })
            }
        },
        None => Ok(BitrateDecision { max_bitrate: None, reduced: false }),
    }
}

} // verus!
