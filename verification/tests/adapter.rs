use radio_adapter::adapter::{receive_frame, transmit_outcome, Adapter};
use radio_adapter::caps::{Capability, MacCapability};
use radio_adapter::driver::{translate, CcaMode, RX_QUEUE_SIZE};
use radio_adapter::types::{Cca, Config, PsduMeta, RadioErrorKind, RawFrame};

fn sample_config() -> Config {
    Config {
        channel: 15,
        power: 10,
        cca: Cca::Ed { ed_threshold: -75 },
        pan_id: Some(0x1234),
        short_addr: Some(0xabcd),
        ext_addr: Some(0x0011_2233_4455_6677),
        promiscuous: false,
        rx_when_idle: true,
    }
}

#[test]
fn new_adapter_starts_from_initial_config() {
    let (_adapter, record) = Adapter::new();
    assert_eq!(record, translate(&Config::new()));
}

#[test]
fn set_config_identical_triggers_no_update() {
    let (mut adapter, _) = Adapter::new();
    let initial = Config::new();
    assert_eq!(adapter.set_config(&initial), None);
}

#[test]
fn set_config_changed_triggers_one_update() {
    let (mut adapter, _) = Adapter::new();
    let config = sample_config();
    let record = adapter.set_config(&config);
    assert_eq!(record, Some(translate(&config)));
    // The same configuration again: stored now, so no further update.
    assert_eq!(adapter.set_config(&config), None);
}

#[test]
fn translate_sets_fixed_policy_fields() {
    let record = translate(&sample_config());
    assert!(record.auto_ack_tx);
    assert!(record.auto_ack_rx);
    assert!(record.enhance_ack_tx);
    assert!(!record.coordinator);
    assert_eq!(record.rx_queue_size, RX_QUEUE_SIZE);
    assert_eq!(record.rx_queue_size, 50);
}

#[test]
fn translate_passes_plain_fields_through() {
    let config = sample_config();
    let record = translate(&config);
    assert_eq!(record.channel, 15);
    assert_eq!(record.txpower, 10);
    assert_eq!(record.pan_id, Some(0x1234));
    assert_eq!(record.short_addr, Some(0xabcd));
    assert_eq!(record.ext_addr, Some(0x0011_2233_4455_6677));
    assert!(!record.promiscuous);
    assert!(record.rx_when_idle);
}

#[test]
fn translate_maps_every_cca_variant() {
    let mut config = sample_config();

    config.cca = Cca::Carrier;
    let record = translate(&config);
    assert_eq!(record.cca_mode, CcaMode::Carrier);
    assert_eq!(record.cca_threshold, 0);

    config.cca = Cca::Ed { ed_threshold: -60 };
    let record = translate(&config);
    assert_eq!(record.cca_mode, CcaMode::Ed);
    assert_eq!(record.cca_threshold, -60);

    config.cca = Cca::CarrierAndEd { ed_threshold: -61 };
    let record = translate(&config);
    assert_eq!(record.cca_mode, CcaMode::CarrierAndEd);
    assert_eq!(record.cca_threshold, -61);

    config.cca = Cca::CarrierOrEd { ed_threshold: -62 };
    let record = translate(&config);
    assert_eq!(record.cca_mode, CcaMode::CarrierOrEd);
    assert_eq!(record.cca_threshold, -62);
}

#[test]
fn advertised_caps_hold_ack_timeout_and_csma_backoff_only() {
    let caps = Adapter::caps();
    assert!(caps.contains(Capability::AckTimeout));
    assert!(caps.contains(Capability::CsmaBackoff));
    assert!(!caps.contains(Capability::RxOnWhenIdle));
    assert!(!caps.contains(Capability::EnergyScan));
    assert!(!caps.contains(Capability::SleepToTx));
}

#[test]
fn advertised_mac_caps_hold_everything() {
    let mac_caps = Adapter::mac_caps();
    assert!(mac_caps.contains(MacCapability::TxSecurity));
    assert!(mac_caps.contains(MacCapability::TxTiming));
    assert!(mac_caps.contains(MacCapability::RxTiming));
}

#[test]
fn transmit_failure_reports_tx_failed_and_leaves_ack_buffer() {
    let ack = RawFrame { data: vec![0x01, 0x42], channel: 15 };
    let mut ack_buf = vec![7u8; 4];
    let r = transmit_outcome(false, Some(&ack), true, &mut ack_buf);
    assert_eq!(r, Err(RadioErrorKind::TxFailed));
    assert_eq!(ack_buf, vec![7u8; 4]);
}

#[test]
fn transmit_success_without_ack_request_returns_none() {
    let mut empty: [u8; 0] = [];
    let r = transmit_outcome(true, None, false, &mut empty);
    assert_eq!(r, Ok(None));
}

#[test]
fn transmit_success_with_ack_requested_but_none_captured_returns_none() {
    let mut ack_buf = vec![7u8; 4];
    let r = transmit_outcome(true, None, true, &mut ack_buf);
    assert_eq!(r, Ok(None));
    assert_eq!(ack_buf, vec![7u8; 4]);
}

#[test]
fn transmit_success_decodes_captured_ack() {
    let ack = RawFrame { data: vec![0x02, 0x42, 0x43, 0xf1], channel: 20 };
    let mut ack_buf = vec![0u8; 4];
    let r = transmit_outcome(true, Some(&ack), true, &mut ack_buf);
    assert_eq!(r, Ok(Some(PsduMeta { len: 2, channel: 20, rssi: Some(-15) })));
    assert_eq!(&ack_buf[..2], &[0x42, 0x43]);
}

#[test]
fn transmit_oversized_ack_is_dropped_not_an_error() {
    let ack = RawFrame { data: vec![0x05, 1, 2, 3, 4, 5], channel: 20 };
    let mut ack_buf = vec![9u8; 2];
    let r = transmit_outcome(true, Some(&ack), true, &mut ack_buf);
    assert_eq!(r, Ok(None));
    assert_eq!(ack_buf, vec![9u8; 2]);
}

#[test]
fn transmit_empty_ack_frame_is_dropped_not_an_error() {
    let ack = RawFrame { data: vec![], channel: 20 };
    let mut ack_buf = vec![9u8; 2];
    let r = transmit_outcome(true, Some(&ack), true, &mut ack_buf);
    assert_eq!(r, Ok(None));
    assert_eq!(ack_buf, vec![9u8; 2]);
}

#[test]
fn receive_decodes_buffered_frame() {
    let frame = RawFrame { data: vec![0x03, 0xaa, 0xbb, 0xcc, 0x12], channel: 25 };
    let mut buf = vec![0u8; 8];
    let r = receive_frame(&frame, &mut buf);
    assert_eq!(r, Ok(PsduMeta { len: 3, channel: 25, rssi: Some(18) }));
    assert_eq!(&buf[..3], &[0xaa, 0xbb, 0xcc]);
}

#[test]
fn receive_empty_frame_fails_with_other() {
    let frame = RawFrame { data: vec![], channel: 25 };
    let mut buf = vec![0u8; 8];
    assert_eq!(receive_frame(&frame, &mut buf), Err(RadioErrorKind::Other));
}

#[test]
fn receive_oversized_frame_fails_with_other_and_leaves_buffer() {
    let frame = RawFrame { data: vec![0x04, 1, 2, 3, 4], channel: 25 };
    let mut buf = vec![5u8; 2];
    assert_eq!(receive_frame(&frame, &mut buf), Err(RadioErrorKind::Other));
    assert_eq!(buf, vec![5u8; 2]);
}
