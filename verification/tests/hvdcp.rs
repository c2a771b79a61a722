use ln8000_kmdf::band::admits_switching;
use ln8000_kmdf::hvdcp::{
    estimated_vbus_uv, pulses_toward_target, qc_status_indicates_9v, target_vbus_uv,
    trim_target_uv, vin_stayed_near_5v, window_floor_uv, with_adapter_allow_5v_to_12v,
    with_qc2_max_9v, HvdcpError, HvdcpPhase, HvdcpTransport, BIT_FORCE_5V, BIT_QC_5V_TO_9V_REASON,
    BIT_QC_9V, ICL_RAW_500MA, ICL_RAW_5V_2P7A, ICL_RAW_DCP_1P8A, ICL_RAW_PUMP_3A, MAX_BOOST_INC,
    MAX_PULSE_CNT, MICRO_5V_UV, PUMP_VIN_TARGET_ABS_MIN_UV, PUMP_VIN_TARGET_CEIL_UV,
    PUMP_VIN_TARGET_MIN_UV, PUMP_VIN_TRIM_UV, QC35_STEP_UV, QC3_STEP_UV,
};

#[test]
fn target_tracks_the_live_transfer_band() {
    assert_eq!(target_vbus_uv(4_000_000), 8_300_000);
    assert_eq!(target_vbus_uv(4_420_000), 9_140_000);
    assert_eq!(target_vbus_uv(4_500_000), 9_300_000);
    assert_eq!(target_vbus_uv(3_000_000), PUMP_VIN_TARGET_ABS_MIN_UV);
    assert_eq!(target_vbus_uv(0), PUMP_VIN_TARGET_MIN_UV as u32);
}

#[test]
fn target_always_admits_switching() {
    for vbat in (3_000_000..=4_500_000).step_by(50_000) {
        let vin = i32::try_from(target_vbus_uv(vbat)).unwrap_or(i32::MIN);
        assert!(
            admits_switching(vin, vbat),
            "target {vin} must admit 2:1 at Vbat {vbat}"
        );
    }
}

#[test]
fn inc_cap_matches_boost_budget() {
    assert!(MAX_BOOST_INC <= MAX_PULSE_CNT);
    assert_eq!(MAX_PULSE_CNT, 23);
    assert!(estimated_vbus_uv(MAX_PULSE_CNT) >= PUMP_VIN_TARGET_MIN_UV as u32);
    assert_eq!(pulses_toward_target(4_000_000), 17);
    assert!(pulses_toward_target(4_500_000) <= MAX_PULSE_CNT);
}

#[test]
fn estimated_vbus_from_pulses() {
    assert_eq!(estimated_vbus_uv(0), MICRO_5V_UV);
    assert_eq!(estimated_vbus_uv(20), 9_000_000);
}

#[test]
fn usbin_unavailable_code_is_stable() {
    assert_eq!(HvdcpError::UsbinUnavailable.code(), -10);
}

#[test]
fn transport_codes() {
    assert_eq!(HvdcpTransport::Superuser.code(), 1);
    assert_eq!(HvdcpTransport::UsbinRh.code(), 2);
}

#[test]
fn force_5v_matches_smb5_bit3() {
    assert_eq!(BIT_FORCE_5V, 1 << 3);
    assert_ne!(BIT_FORCE_5V, 1 << 2);
}

#[test]
fn icl_500ma_raw_is_ten_steps() {
    assert_eq!(u32::from(ICL_RAW_500MA) * 50_000, 500_000);
}

#[test]
fn icl_pump_3a_raw_is_sixty_steps() {
    assert_eq!(u32::from(ICL_RAW_PUMP_3A) * 50_000, 3_000_000);
}

#[test]
fn icl_5v_2p7a_raw_is_fifty_four_steps() {
    assert_eq!(u32::from(ICL_RAW_5V_2P7A) * 50_000, 2_700_000);
}

#[test]
fn icl_5v_bypass_matches_nabu_dcp_band() {
    assert_eq!(u32::from(ICL_RAW_DCP_1P8A) * 50_000, 1_800_000);
    assert!(
        ICL_RAW_5V_2P7A >= ICL_RAW_DCP_1P8A,
        "5 V bypass ICL must be >= nabu DCP 1.8 A floor"
    );
    assert!(
        ICL_RAW_5V_2P7A <= ICL_RAW_PUMP_3A,
        "5 V bypass ICL must stay within LN8000 class-B bus budget"
    );
}

#[test]
fn pump_vin_window_is_ordered() {
    assert!(PUMP_VIN_TARGET_ABS_MIN_UV <= PUMP_VIN_TARGET_CEIL_UV);
    assert!(PUMP_VIN_TARGET_CEIL_UV < PUMP_VIN_TRIM_UV as u32);
    assert!(window_floor_uv(4_420_000) < trim_target_uv(4_420_000));
    assert!(trim_target_uv(4_420_000) as u32 <= PUMP_VIN_TRIM_UV as u32);
    assert_eq!(window_floor_uv(0), PUMP_VIN_TARGET_MIN_UV);
    assert_eq!(trim_target_uv(0), PUMP_VIN_TARGET_MIN_UV);
}

#[test]
fn qc2_max_9v_merges_without_clobbering_low_bits() {
    assert_eq!(with_qc2_max_9v(0x00), 0x40);
    assert_eq!(with_qc2_max_9v(0x1F), 0x5F);
    assert_eq!(with_qc2_max_9v(0xC0), 0x40);
}

#[test]
fn adapter_allow_5v_to_12v_merges_low_nibble() {
    assert_eq!(with_adapter_allow_5v_to_12v(0x00), 0x0C);
    assert_eq!(with_adapter_allow_5v_to_12v(0xF0), 0xFC);
}

#[test]
fn qc_status_9v_hint_bits() {
    assert!(!qc_status_indicates_9v(0x01));
    assert!(qc_status_indicates_9v(BIT_QC_9V));
    assert!(qc_status_indicates_9v(BIT_QC_5V_TO_9V_REASON));
}

#[test]
fn five_v_stay_helper() {
    assert!(vin_stayed_near_5v(5_100_000));
    assert!(!vin_stayed_near_5v(9_600_000));
    assert!(!vin_stayed_near_5v(0));
}

#[test]
fn qc35_step_is_one_tenth_of_qc3() {
    assert_eq!(QC35_STEP_UV * 10, QC3_STEP_UV);
}

#[test]
fn qc35_phase_codes() {
    assert_eq!(HvdcpPhase::Qc35Auth.code(), 8);
    assert_eq!(HvdcpPhase::FiveVBypass.code(), 9);
}
