use vorbis_rs::{EngineCall, VorbisBitrateManagementStrategy, VorbisError, select_setup_calls};

#[test]
fn quality_vbr_is_one_finalizing_call() {
    let calls = select_setup_calls(VorbisBitrateManagementStrategy::QualityVbr { target_quality_milli: -200 }, 8000, 1).unwrap();
    assert_eq!(calls, vec![EngineCall::EncodeInitVbr { channels: 1, rate: 8000, quality_milli: -200 }]);
}

#[test]
fn target_vbr_disables_rate_management_then_finalizes() {
    let calls = select_setup_calls(VorbisBitrateManagementStrategy::Vbr { target_bitrate: 96000 }, 44100, 2).unwrap();
    assert_eq!(
        calls,
        vec![
            EngineCall::EncodeSetupManaged { channels: 2, rate: 44100, max_bitrate: -1, nominal_bitrate: 96000, min_bitrate: -1 },
            EngineCall::EncodeCtlRateManagementOff,
            EngineCall::EncodeSetupInit,
        ]
    );
}

#[test]
fn abr_sets_only_the_nominal_bitrate() {
    let calls = select_setup_calls(VorbisBitrateManagementStrategy::Abr { average_bitrate: 64000 }, 22050, 1).unwrap();
    assert_eq!(
        calls,
        vec![EngineCall::EncodeInit { channels: 1, rate: 22050, max_bitrate: -1, nominal_bitrate: 64000, min_bitrate: -1 }]
    );
}

#[test]
fn constrained_abr_sets_only_the_maximum_bitrate() {
    let calls = select_setup_calls(VorbisBitrateManagementStrategy::ConstrainedAbr { maximum_bitrate: 160000 }, 48000, 6).unwrap();
    assert_eq!(
        calls,
        vec![EngineCall::EncodeInit { channels: 6, rate: 48000, max_bitrate: 160000, nominal_bitrate: -1, min_bitrate: -1 }]
    );
}

#[test]
fn out_of_range_values_fail_before_any_call() {
    assert!(matches!(
        select_setup_calls(VorbisBitrateManagementStrategy::default(), 2147483648, 1),
        Err(VorbisError::RangeExceeded)
    ));
    assert!(matches!(
        select_setup_calls(VorbisBitrateManagementStrategy::Vbr { target_bitrate: 4000000000 }, 44100, 2),
        Err(VorbisError::RangeExceeded)
    ));
    assert!(matches!(
        select_setup_calls(VorbisBitrateManagementStrategy::ConstrainedAbr { maximum_bitrate: 2147483648 }, 44100, 2),
        Err(VorbisError::RangeExceeded)
    ));
    assert!(select_setup_calls(VorbisBitrateManagementStrategy::Abr { average_bitrate: 2147483647 }, 2147483647, 2).is_ok());
}

#[test]
fn default_strategy_is_quality_half() {
    assert_eq!(
        VorbisBitrateManagementStrategy::default(),
        VorbisBitrateManagementStrategy::QualityVbr { target_quality_milli: 500 }
    );
}
