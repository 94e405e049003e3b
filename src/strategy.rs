use vstd::prelude::*;
use crate::engine::{EngineCall, finalizes_setup};
use crate::error::VorbisError;

verus! {

/// The bitrate value that leaves a bitrate unset.
pub const UNSET_BITRATE: i32 = -1;

/// The largest value the engines' `long` parameters are guaranteed to hold.
pub const ENGINE_LONG_MAX: u32 = 2147483647;

/// A bitrate management strategy: the tradeoff between audio quality and
/// stream size that the encoder is set up for.
#[derive(PartialEq, Eq, Structural, Copy, Clone, Debug)]
pub enum VorbisBitrateManagementStrategy {
    /// Pure VBR quality mode, selected by a target bitrate in bit/s; the
    /// bitrate management engine is off.
    Vbr {
        /// The bitrate to target.
        target_bitrate: u32,
    },
    /// VBR mode selected directly by a perceptual quality factor, given in
    /// thousandths (the engine accepts about -200 to 1000).
    QualityVbr {
        /// The quality factor to target, in thousandths.
        target_quality_milli: i32,
    },
    /// ABR mode: a soft average bitrate in bit/s, with the management engine on
    /// and no hard limits.
    Abr {
        /// The average bitrate to target.
        average_bitrate: u32,
    },
    /// Constrained ABR mode: a hard maximum bitrate in bit/s.
    ConstrainedAbr {
        /// The bitrate never to exceed.
        maximum_bitrate: u32,
    },
}

impl Default for VorbisBitrateManagementStrategy {
    /// Quality mode at factor 0.5.
    fn default() -> (r: Self)
        ensures
            r == (VorbisBitrateManagementStrategy::QualityVbr { target_quality_milli: 500 }),
    {
        VorbisBitrateManagementStrategy::QualityVbr { target_quality_milli: 500 }
    }
}

/// Whether the sampling frequency and the strategy's bitrate fit the engines'
/// integer width.
pub open spec fn strategy_in_range(strategy: VorbisBitrateManagementStrategy, rate: u32) -> bool {
    rate <= ENGINE_LONG_MAX && match strategy {
        VorbisBitrateManagementStrategy::Vbr { target_bitrate } => target_bitrate <= ENGINE_LONG_MAX,
        VorbisBitrateManagementStrategy::QualityVbr { .. } => true,
        VorbisBitrateManagementStrategy::Abr { average_bitrate } => average_bitrate <= ENGINE_LONG_MAX,
        VorbisBitrateManagementStrategy::ConstrainedAbr { maximum_bitrate } => maximum_bitrate <= ENGINE_LONG_MAX,
    }
}

/// The setup calls that put the codec engine into the given strategy.
pub open spec fn setup_calls(strategy: VorbisBitrateManagementStrategy, rate: u32, channels: u8) -> Seq<EngineCall> {
    let ch = channels as i32;
    let fr = rate as i32;
    match strategy {
        VorbisBitrateManagementStrategy::QualityVbr { target_quality_milli } => seq![
            EngineCall::EncodeInitVbr { channels: ch, rate: fr, quality_milli: target_quality_milli },
        ],
        VorbisBitrateManagementStrategy::Vbr { target_bitrate } => seq![
            EngineCall::EncodeSetupManaged {
                channels: ch,
                rate: fr,
                max_bitrate: UNSET_BITRATE,
                nominal_bitrate: target_bitrate as i32,
                min_bitrate: UNSET_BITRATE,
            },
            EngineCall::EncodeCtlRateManagementOff,
            EngineCall::EncodeSetupInit,
        ],
        VorbisBitrateManagementStrategy::Abr { average_bitrate } => seq![
            EngineCall::EncodeInit {
                channels: ch,
                rate: fr,
                max_bitrate: UNSET_BITRATE,
                nominal_bitrate: average_bitrate as i32,
                min_bitrate: UNSET_BITRATE,
            },
        ],
        VorbisBitrateManagementStrategy::ConstrainedAbr { maximum_bitrate } => seq![
            EngineCall::EncodeInit {
                channels: ch,
                rate: fr,
                max_bitrate: maximum_bitrate as i32,
                nominal_bitrate: UNSET_BITRATE,
                min_bitrate: UNSET_BITRATE,
            },
        ],
    }
}

/// Selects the setup calls for a strategy. Fails with `RangeExceeded`, before
/// any call is made, when the sampling frequency or the bitrate does not fit
/// the engines' integer width.
pub fn select_setup_calls(strategy: VorbisBitrateManagementStrategy, rate: u32, channels: u8) -> (r: Result<
    Vec<EngineCall>,
    VorbisError,
>)
    ensures
        strategy_in_range(strategy, rate) ==> r is Ok && r->Ok_0@ == setup_calls(strategy, rate, channels),
        !strategy_in_range(strategy, rate) ==> r is Err && r->Err_0 is RangeExceeded,
{
    if rate > ENGINE_LONG_MAX {
        return Err(VorbisError::RangeExceeded);
    }
    let ch = channels as i32;
    let fr = rate as i32;
    match strategy {
        VorbisBitrateManagementStrategy::QualityVbr { target_quality_milli } => {
            Ok(vec![EngineCall::EncodeInitVbr { channels: ch, rate: fr, quality_milli: target_quality_milli }])
        },
        VorbisBitrateManagementStrategy::Vbr { target_bitrate } => {
            if target_bitrate > ENGINE_LONG_MAX {
                return Err(VorbisError::RangeExceeded);
            }
            let r = vec![
                EngineCall::EncodeSetupManaged {
                    channels: ch,
                    rate: fr,
                    max_bitrate: UNSET_BITRATE,
                    nominal_bitrate: target_bitrate as i32,
                    min_bitrate: UNSET_BITRATE,
                },
                EngineCall::EncodeCtlRateManagementOff,
                EngineCall::EncodeSetupInit,
            ];
            assert(r@ =~= setup_calls(strategy, rate, channels));
            Ok(r)
        },
        VorbisBitrateManagementStrategy::Abr { average_bitrate } => {
            if average_bitrate > ENGINE_LONG_MAX {
                return Err(VorbisError::RangeExceeded);
            }
            Ok(vec![
                EngineCall::EncodeInit {
                    channels: ch,
                    rate: fr,
                    max_bitrate: UNSET_BITRATE,
                    nominal_bitrate: average_bitrate as i32,
                    min_bitrate: UNSET_BITRATE,
                },
            ])
        },
        VorbisBitrateManagementStrategy::ConstrainedAbr { maximum_bitrate } => {
            if maximum_bitrate > ENGINE_LONG_MAX {
                return Err(VorbisError::RangeExceeded);
            }
            Ok(vec![
                EngineCall::EncodeInit {
                    channels: ch,
                    rate: fr,
                    max_bitrate: maximum_bitrate as i32,
                    nominal_bitrate: UNSET_BITRATE,
                    min_bitrate: UNSET_BITRATE,
                },
            ])
        },
    }
}

/// Every strategy's setup ends with the finalizing call, and makes it exactly
/// once: no setup call follows it and none before it finalizes.
pub proof fn lemma_setup_finalizes_once(strategy: VorbisBitrateManagementStrategy, rate: u32, channels: u8)
    ensures
        setup_calls(strategy, rate, channels).len() > 0,
        finalizes_setup(setup_calls(strategy, rate, channels).last()),
        forall|i: int|
            0 <= i < setup_calls(strategy, rate, channels).len() - 1 ==> !finalizes_setup(
                #[trigger] setup_calls(strategy, rate, channels)[i],
            ),
{
}

} // verus!
