use productiondeck::command::{FirmwareType, ModuleGetCommand, ModuleSetCommand};
use productiondeck::device::ProtocolVersion;
use productiondeck::handler::ProtocolHandler;
use productiondeck::module15_32::{Module15_32KeysHandler, ModuleModel};
use productiondeck::module6::Module6KeysHandler;
use productiondeck::report::{ButtonMapping, OutputReportResult};
use productiondeck::v1::V1Handler;
use productiondeck::v2::V2Handler;

fn pattern(len: usize, seed: u8) -> Vec<u8> {
    (0..len).map(|i| (i as u8).wrapping_mul(7).wrapping_add(seed)).collect()
}

fn v1_packet(packet: u8, key: u8, payload: &[u8]) -> Vec<u8> {
    let mut p = vec![0x02, 0x01, packet, 0x00, 0x00, key, 0x00, 0x00];
    p.extend_from_slice(payload);
    p
}

fn v2_packet(key: u8, last: bool, sequence: u16, payload: &[u8]) -> Vec<u8> {
    let len = payload.len() as u16;
    let mut p = vec![
        0x02,
        0x07,
        key,
        if last { 1 } else { 0 },
        (len & 0xff) as u8,
        (len >> 8) as u8,
        (sequence & 0xff) as u8,
        (sequence >> 8) as u8,
    ];
    p.extend_from_slice(payload);
    p
}

fn chunk_packet(chunk: u8, key: u8, payload: &[u8]) -> Vec<u8> {
    let mut p = vec![0x02, 0x01, chunk, 0x00, 0x00, key, 0x00, 0x00, 0x00, 0x00];
    p.extend_from_slice(payload);
    p
}

fn complete(r: OutputReportResult) -> Option<(u8, Vec<u8>)> {
    match r {
        OutputReportResult::KeyImageComplete { key_id, image } => Some((key_id, image)),
        _ => None,
    }
}

#[test]
fn v1_round_trip_gives_joined_image_once() {
    let a = pattern(72 * 72 * 3, 1);
    let b = pattern(72 * 72 * 3, 9);
    let mut h = ProtocolHandler::create(ProtocolVersion::V1);
    let first = h.parse_output_report(&v1_packet(1, 5, &a));
    assert!(matches!(first, OutputReportResult::Incomplete));
    let second = h.parse_output_report(&v1_packet(2, 5, &b));
    let (key, image) = complete(second).expect("image completes");
    assert_eq!(key, 5);
    let mut joined = a.clone();
    joined.extend_from_slice(&b);
    assert_eq!(image, joined);
    let again = h.parse_output_report(&v1_packet(2, 5, &b));
    assert!(matches!(again, OutputReportResult::Unhandled));
}

#[test]
fn v1_accepts_stripped_report_id() {
    let mut h = V1Handler::new();
    let mut p1 = vec![0x01, 0x01, 0x00, 0x00, 3, 0x00, 0x00];
    p1.extend_from_slice(&[10, 11, 12]);
    assert!(matches!(h.parse_output_report(&p1), OutputReportResult::Incomplete));
    let mut p2 = vec![0x01, 0x02, 0x00, 0x00, 3, 0x00, 0x00];
    p2.extend_from_slice(&[13]);
    let (key, image) = complete(h.parse_output_report(&p2)).expect("image completes");
    assert_eq!(key, 3);
    assert_eq!(image, vec![10, 11, 12, 13]);
}

#[test]
fn v1_second_packet_for_other_key_is_ignored() {
    let mut h = V1Handler::new();
    h.parse_output_report(&v1_packet(1, 2, &[1, 2]));
    assert!(matches!(h.parse_output_report(&v1_packet(2, 4, &[3])), OutputReportResult::Unhandled));
    let (key, image) = complete(h.parse_output_report(&v1_packet(2, 2, &[3]))).expect("still in flight");
    assert_eq!(key, 2);
    assert_eq!(image, vec![1, 2, 3]);
}

#[test]
fn v1_short_report_is_unhandled() {
    let mut h = V1Handler::new();
    assert!(matches!(h.parse_output_report(&[0x02, 0x01, 0x01]), OutputReportResult::Unhandled));
}

#[test]
fn v1_overflow_resets() {
    let mut h = V1Handler::new();
    let a = pattern(20000, 3);
    let b = pattern(20000, 4);
    h.parse_output_report(&v1_packet(1, 1, &a));
    assert!(matches!(h.parse_output_report(&v1_packet(2, 1, &b)), OutputReportResult::Unhandled));
    assert!(matches!(h.parse_output_report(&v1_packet(2, 1, &[1])), OutputReportResult::Unhandled));
    let too_big = pattern(32769, 5);
    assert!(matches!(h.parse_output_report(&v1_packet(1, 1, &too_big)), OutputReportResult::Unhandled));
    assert!(matches!(h.parse_output_report(&v1_packet(2, 1, &[1])), OutputReportResult::Unhandled));
}

#[test]
fn buffer_fills_to_capacity_exactly() {
    let mut h = V1Handler::new();
    let a = pattern(32000, 3);
    let b = pattern(768, 4);
    h.parse_output_report(&v1_packet(1, 1, &a));
    let (_, image) = complete(h.parse_output_report(&v1_packet(2, 1, &b))).expect("fits exactly");
    assert_eq!(image.len(), 32768);
}

#[test]
fn v2_gap_in_sequence_resets_then_restarts() {
    let mut h = ProtocolHandler::create(ProtocolVersion::V2);
    assert!(matches!(h.parse_output_report(&v2_packet(4, false, 0, &[1, 2])), OutputReportResult::Incomplete));
    let skipped = h.parse_output_report(&v2_packet(4, true, 2, &[3]));
    assert!(matches!(skipped, OutputReportResult::Unhandled));
    assert!(matches!(h.parse_output_report(&v2_packet(4, true, 1, &[3])), OutputReportResult::Unhandled));
    assert!(matches!(h.parse_output_report(&v2_packet(4, false, 0, &[7])), OutputReportResult::Incomplete));
    assert!(matches!(h.parse_output_report(&v2_packet(4, false, 1, &[8])), OutputReportResult::Incomplete));
    let (key, image) = complete(h.parse_output_report(&v2_packet(4, true, 2, &[9]))).expect("completes");
    assert_eq!(key, 4);
    assert_eq!(image, vec![7, 8, 9]);
}

#[test]
fn v2_key_mismatch_resets() {
    let mut h = V2Handler::new();
    h.parse_output_report(&v2_packet(1, false, 0, &[1]));
    assert!(matches!(h.parse_output_report(&v2_packet(2, false, 1, &[2])), OutputReportResult::Unhandled));
    assert!(matches!(h.parse_output_report(&v2_packet(1, true, 1, &[2])), OutputReportResult::Unhandled));
}

#[test]
fn v2_payload_cut_to_declared_length() {
    let mut h = V2Handler::new();
    let mut p = v2_packet(6, true, 0, &[1, 2, 3, 4]);
    p[4] = 2;
    let (key, image) = complete(h.parse_output_report(&p)).expect("single packet image");
    assert_eq!(key, 6);
    assert_eq!(image, vec![1, 2]);
}

#[test]
fn v2_accepts_stripped_report_id() {
    let mut h = V2Handler::new();
    let p = vec![0x07, 9, 1, 2, 0, 0, 0, 0xaa, 0xbb];
    let (key, image) = complete(h.parse_output_report(&p)).expect("single packet image");
    assert_eq!(key, 9);
    assert_eq!(image, vec![0xaa, 0xbb]);
}

#[test]
fn v2_overflow_resets() {
    let mut h = V2Handler::new();
    let big = pattern(30000, 1);
    assert!(matches!(h.parse_output_report(&v2_packet(1, false, 0, &big)), OutputReportResult::Incomplete));
    assert!(matches!(h.parse_output_report(&v2_packet(1, false, 1, &big)), OutputReportResult::Unhandled));
    assert!(matches!(h.parse_output_report(&v2_packet(1, true, 2, &[1])), OutputReportResult::Unhandled));
}

#[test]
fn module6_chunked_upload_completes_on_short_chunk() {
    let mut h = ProtocolHandler::create(ProtocolVersion::Module6Keys);
    let full = pattern(1014, 2);
    let short = pattern(10, 3);
    assert!(matches!(h.parse_output_report(&chunk_packet(0, 3, &full)), OutputReportResult::Incomplete));
    assert!(matches!(h.parse_output_report(&chunk_packet(1, 3, &full)), OutputReportResult::Incomplete));
    let (key, image) = complete(h.parse_output_report(&chunk_packet(2, 3, &short))).expect("short chunk ends");
    assert_eq!(key, 3);
    assert_eq!(image.len(), 2 * 1014 + 10);
    assert_eq!(&image[2028..], &short[..]);
}

#[test]
fn module6_upload_completes_at_last_expected_chunk() {
    let mut h = Module6KeysHandler::new();
    let full = pattern(1014, 2);
    for i in 0..18u8 {
        assert!(matches!(h.parse_output_report(&chunk_packet(i, 1, &full)), OutputReportResult::Incomplete));
    }
    let (key, image) = complete(h.parse_output_report(&chunk_packet(18, 1, &full))).expect("nineteenth chunk ends");
    assert_eq!(key, 1);
    assert_eq!(image.len(), 19 * 1014);
}

#[test]
fn module6_out_of_order_chunk_resets() {
    let mut h = Module6KeysHandler::new();
    let full = pattern(1014, 2);
    h.parse_output_report(&chunk_packet(0, 1, &full));
    assert!(matches!(h.parse_output_report(&chunk_packet(2, 1, &full)), OutputReportResult::Unhandled));
    assert!(matches!(h.parse_output_report(&chunk_packet(1, 1, &full)), OutputReportResult::Unhandled));
}

#[test]
fn module15_output_is_unhandled() {
    let mut h = Module15_32KeysHandler::new();
    assert!(matches!(h.parse_output_report(&[0x02, 0x07, 0, 0, 0, 0, 0, 0]), OutputReportResult::Unhandled));
}

#[test]
fn reset_twice_equals_reset_once() {
    let mut h = ProtocolHandler::create(ProtocolVersion::V2);
    h.parse_output_report(&v2_packet(1, false, 0, &[1, 2, 3]));
    h.reset();
    h.reset();
    assert!(matches!(h.parse_output_report(&v2_packet(1, true, 1, &[4])), OutputReportResult::Unhandled));
    let mut g = ProtocolHandler::create(ProtocolVersion::V1);
    g.parse_output_report(&v1_packet(1, 1, &[1]));
    g.reset();
    g.reset();
    assert!(matches!(g.parse_output_report(&v1_packet(2, 1, &[2])), OutputReportResult::Unhandled));
}

#[test]
fn v1_brightness_without_report_id() {
    let mut h = ProtocolHandler::create(ProtocolVersion::V1);
    let r = h.handle_feature_report(0x05, &[0x55, 0xAA, 0xD1, 0x01, 0x64]);
    assert_eq!(r, Some(ModuleSetCommand::SetBrightness { value: 100 }));
}

#[test]
fn v1_brightness_with_report_id_and_reset_magic() {
    let mut h = V1Handler::new();
    assert_eq!(
        h.handle_feature_report(0x05, &[0x05, 0x55, 0xAA, 0xD1, 0x01, 0x20]),
        Some(ModuleSetCommand::SetBrightness { value: 0x20 })
    );
    assert_eq!(h.handle_feature_report(0x05, &[0x05, 0x55, 0xAA, 0xD1, 0x01, 0x3E]), Some(ModuleSetCommand::Reset));
    assert_eq!(h.handle_feature_report(0x05, &[0x55, 0xAA, 0xD0, 0x01, 0x64]), None);
    assert_eq!(h.handle_feature_report(0x0B, &[0x0B, 0x63]), Some(ModuleSetCommand::Reset));
    assert_eq!(h.handle_feature_report(0x09, &[0x63]), None);
}

#[test]
fn v1_idle_time_is_kept_and_reported() {
    let mut h = V1Handler::new();
    assert_eq!(
        h.handle_feature_report(0x0B, &[0x0B, 0xA2, 0x2C, 0x01, 0x00, 0x00]),
        Some(ModuleSetCommand::SetIdleTime { seconds: 300 })
    );
    let mut buf = [0xffu8; 40];
    assert_eq!(h.get_feature_report(0xA3, &mut buf), Some(32));
    assert_eq!(&buf[..6], &[0xA3, 0x06, 0x2C, 0x01, 0x00, 0x00]);
    assert!(buf[6..32].iter().all(|b| *b == 0));
    assert!(buf[32..].iter().all(|b| *b == 0xff));
}

#[test]
fn v1_negative_idle_time() {
    let mut h = V1Handler::new();
    assert_eq!(
        h.handle_feature_report(0x0B, &[0xA2, 0xff, 0xff, 0xff, 0xff]),
        Some(ModuleSetCommand::SetIdleTime { seconds: -1 })
    );
}

#[test]
fn v1_version_and_serial_reports() {
    let mut h = V1Handler::new();
    let mut buf = [0u8; 32];
    assert_eq!(h.get_feature_report(0xA1, &mut buf), Some(32));
    assert_eq!(&buf[..5], &[0xA1, 0x0c, 0x31, 0x33, 0x00]);
    assert_eq!(&buf[5..13], b"3.00.000");
    let mut buf = [0u8; 32];
    assert_eq!(h.get_feature_report(0x03, &mut buf), Some(32));
    assert_eq!(&buf[5..17], b"PRODUCTIONDK");
    let mut short = [0u8; 8];
    assert_eq!(h.get_feature_report(0x04, &mut short), Some(8));
    assert_eq!(&short, &[0x04, 0x0c, 0x31, 0x33, 0x00, b'3', b'.', b'0']);
    let mut buf = [7u8; 20];
    assert_eq!(h.get_feature_report(0x07, &mut buf), Some(16));
    assert_eq!(buf[0], 0x07);
    assert!(buf[1..16].iter().all(|b| *b == 0));
    assert_eq!(buf[16], 7);
    let mut buf = [7u8; 4];
    assert_eq!(h.get_feature_report(0x42, &mut buf), None);
    assert_eq!(buf, [7u8; 4]);
}

#[test]
fn v2_feature_commands() {
    let mut h = V2Handler::new();
    assert_eq!(h.handle_feature_report(0x03, &[0x03, 0x02]), Some(ModuleSetCommand::Reset));
    assert_eq!(h.handle_feature_report(0x03, &[0x03, 0x08, 0x32]), Some(ModuleSetCommand::SetBrightness { value: 0x32 }));
    assert_eq!(h.handle_feature_report(0x03, &[0x03, 0x08]), None);
    assert_eq!(h.handle_feature_report(0x03, &[0x02]), Some(ModuleSetCommand::Reset));
    assert_eq!(h.handle_feature_report(0x03, &[0x08, 50]), Some(ModuleSetCommand::SetBrightness { value: 50 }));
    assert_eq!(h.handle_feature_report(0x03, &[0x08]), None);
    assert_eq!(h.handle_feature_report(0x05, &[0x05, 0x02]), None);
    let mut buf = [0u8; 32];
    assert_eq!(h.get_feature_report(0xA0, &mut buf), Some(32));
    assert_eq!(&buf[5..13], b"3.00.000");
    assert_eq!(h.get_feature_report(0x04, &mut buf), None);
}

#[test]
fn v2_commands_through_dispatcher() {
    let mut h = ProtocolHandler::create(ProtocolVersion::V2);
    assert_eq!(h.handle_feature_report(0x03, &[0x02]), Some(ModuleSetCommand::Reset));
    assert_eq!(h.handle_feature_report(0x03, &[0x08, 50]), Some(ModuleSetCommand::SetBrightness { value: 50 }));
    assert_eq!(h.handle_feature_report(0x03, &[0x08]), None);
}

#[test]
fn module6_set_commands() {
    let mut h = Module6KeysHandler::new();
    assert_eq!(h.handle_feature_report(0x05, &[0x55, 0xAA, 0xD1, 0x01, 0x40]), Some(ModuleSetCommand::SetBrightness { value: 0x40 }));
    assert_eq!(h.handle_feature_report(0x0B, &[0x63, 0x00]), Some(ModuleSetCommand::ShowLogo));
    assert_eq!(h.handle_feature_report(0x0B, &[0x63, 0x02, 0x05]), Some(ModuleSetCommand::UpdateBootLogo { slice: 5 }));
    assert_eq!(h.handle_feature_report(0x0B, &[0x63, 0x02]), Some(ModuleSetCommand::UpdateBootLogo { slice: 0 }));
    assert_eq!(h.handle_feature_report(0x0B, &[0x63]), None);
    assert_eq!(h.handle_feature_report(0x0B, &[0xA2, 0x3c, 0, 0, 0]), Some(ModuleSetCommand::SetIdleTime { seconds: 60 }));
    let mut buf = [0u8; 32];
    assert_eq!(h.get_feature_report(0xA3, &mut buf), Some(32));
    assert_eq!(&buf[..6], &[0xA3, 0x04, 0x3c, 0, 0, 0]);
}

#[test]
fn module6_get_commands() {
    let h = Module6KeysHandler::new();
    assert_eq!(h.parse_module_get_command(0xA0), Some(ModuleGetCommand::GetFirmwareVersion(FirmwareType::LD)));
    assert_eq!(h.parse_module_get_command(0x08), Some(ModuleGetCommand::GetUnitInformation));
    assert_eq!(h.get_firmware_version(FirmwareType::LD), b"1.00.003".to_vec());
    assert_eq!(h.get_unit_serial_number(), b"1234567890".to_vec());
    let mut buf = [9u8; 32];
    assert_eq!(h.get_feature_report_bytes(0xA1, &mut buf), Some(32));
    assert_eq!(buf[0], 0xA1);
    assert_eq!(&buf[1..5], &[0, 0, 0, 0]);
    assert_eq!(&buf[5..13], b"1.03.000");
    let mut buf = [9u8; 32];
    assert_eq!(h.get_feature_report_bytes(0x03, &mut buf), Some(32));
    assert_eq!(&buf[5..15], b"1234567890");
    let mut buf = [9u8; 34];
    assert_eq!(h.get_feature_report_bytes(0x08, &mut buf), None);
    assert!(buf[..32].iter().all(|b| *b == 0));
    assert_eq!(&buf[32..], &[9, 9]);
}

#[test]
fn module15_feature_reports() {
    let mut h = Module15_32KeysHandler::with_model(ModuleModel::Module32);
    assert_eq!(h.handle_feature_report(0x03, &[0x03, 0x08, 0x50]), Some(ModuleSetCommand::SetBrightness { value: 0x50 }));
    assert_eq!(h.handle_feature_report(0x03, &[0x03, 0x02, 0x50]), None);
    assert_eq!(h.handle_feature_report(0x03, &[0x08, 0x40]), Some(ModuleSetCommand::SetBrightness { value: 0x40 }));
    assert_eq!(h.handle_feature_report(0x03, &[0x08]), None);
    let mut buf = [0u8; 32];
    assert_eq!(h.get_feature_report(0x05, &mut buf), Some(32));
    assert_eq!(&buf[..2], &[0x05, 0x0C]);
    assert_eq!(&buf[6..14], b"1.00.000");
    let mut buf = [0u8; 32];
    assert_eq!(h.get_feature_report(0x06, &mut buf), Some(32));
    assert_eq!(&buf[..2], &[0x06, 14]);
    assert_eq!(&buf[2..16], b"A1B2C3D4E5F6G7");
    let mut buf = [0u8; 32];
    assert_eq!(h.get_feature_report(0x0A, &mut buf), Some(32));
    assert_eq!(&buf[..6], &[0x0A, 0x04, 0, 0, 0, 0]);
    assert_eq!(h.get_feature_report(0x08, &mut buf), None);
}

#[test]
fn mapping_left_to_right_is_identity() {
    let h = ProtocolHandler::create(ProtocolVersion::V1);
    let physical = [true, false, true, true, false, true];
    let m = h.map_buttons(&physical, 3, 2, true);
    assert_eq!(&m.mapped_buttons[..6], &physical);
    assert!(m.mapped_buttons[6..].iter().all(|b| !*b));
    assert_eq!(m.active_count, 6);
}

#[test]
fn mapping_right_to_left_reverses_rows() {
    let h = ProtocolHandler::create(ProtocolVersion::V1);
    let m = h.map_buttons(&[true, false, false, false, false, false], 3, 2, false);
    let mut expected = [false; 32];
    expected[2] = true;
    assert_eq!(m.mapped_buttons, expected);
    let m = h.map_buttons(&[false, false, false, true, false, false], 3, 2, false);
    assert!(m.mapped_buttons[5]);
    assert_eq!(m.mapped_buttons.iter().filter(|b| **b).count(), 1);
}

#[test]
fn mapping_active_counts_differ_by_family() {
    let physical = [true; 32];
    let m6 = ProtocolHandler::create(ProtocolVersion::Module6Keys).map_buttons(&physical, 3, 2, true);
    assert_eq!(m6.active_count, 6);
    let m15 = ProtocolHandler::create(ProtocolVersion::Module15_32Keys).map_buttons(&physical, 8, 4, true);
    assert_eq!(m15.active_count, 15);
    assert!(m15.mapped_buttons[14]);
    assert!(!m15.mapped_buttons[15]);
    let v2 = ProtocolHandler::create(ProtocolVersion::V2).map_buttons(&physical, 8, 4, true);
    assert_eq!(v2.active_count, 32);
    assert!(v2.mapped_buttons[31]);
}

#[test]
fn mapping_short_physical_reads_released() {
    let h = V2Handler::new();
    let m = h.map_buttons(&[true, true], 3, 2, true);
    assert!(m.mapped_buttons[0] && m.mapped_buttons[1]);
    assert!(!m.mapped_buttons[2]);
}

fn mapping_with(states: &[(usize, bool)], active: usize) -> ButtonMapping {
    let mut mapped = [false; 32];
    for (i, b) in states {
        mapped[*i] = *b;
    }
    ButtonMapping { mapped_buttons: mapped, active_count: active }
}

#[test]
fn v1_button_report_layout() {
    let h = ProtocolHandler::create(ProtocolVersion::V1);
    let m = mapping_with(&[(0, true), (4, true)], 6);
    let mut report = [0xeeu8; 10];
    assert_eq!(h.format_button_report(&m, &mut report), 7);
    assert_eq!(report, [1, 1, 0, 0, 0, 1, 0, 0, 0, 0]);
    let mut empty: [u8; 0] = [];
    assert_eq!(h.format_button_report(&m, &mut empty), 0);
    assert_eq!(h.input_report_size(6), 7);
}

#[test]
fn v2_button_report_layout() {
    let h = ProtocolHandler::create(ProtocolVersion::V2);
    let m = mapping_with(&[(1, true)], 15);
    let mut report = [0xeeu8; 20];
    assert_eq!(h.format_button_report(&m, &mut report), 18);
    assert_eq!(&report[..5], &[0, 0, 0, 0, 1]);
    assert!(report[5..].iter().all(|b| *b == 0));
    let mut small = [0xeeu8; 3];
    assert_eq!(h.format_button_report(&m, &mut small), 0);
    assert_eq!(small, [0xee; 3]);
    assert_eq!(h.input_report_size(15), 18);
}

#[test]
fn module_button_report_layouts() {
    let h6 = ProtocolHandler::create(ProtocolVersion::Module6Keys);
    let m = mapping_with(&[(5, true), (7, true)], 6);
    let mut report = [0xeeu8; 65];
    assert_eq!(h6.format_button_report(&m, &mut report), 64);
    assert_eq!(&report[..8], &[1, 0, 0, 0, 0, 0, 1, 0]);
    assert!(report[8..64].iter().all(|b| *b == 0));
    assert_eq!(report[64], 0xee);
    let mut short = [0u8; 63];
    assert_eq!(h6.format_button_report(&m, &mut short), 0);
    assert_eq!(h6.input_report_size(6), 65);

    let h15 = ProtocolHandler::create(ProtocolVersion::Module15_32Keys);
    let m = mapping_with(&[(0, true), (14, true)], 15);
    let mut report = [0xeeu8; 20];
    assert_eq!(h15.format_button_report(&m, &mut report), 19);
    assert_eq!(&report[..4], &[1, 0, 15, 0]);
    assert_eq!(report[4], 1);
    assert_eq!(report[18], 1);
    assert_eq!(report[19], 0xee);
    assert_eq!(h15.input_report_size(15), 512);
}

#[test]
fn descriptors_match_devices() {
    let v1 = ProtocolHandler::create(ProtocolVersion::V1).hid_descriptor();
    assert_eq!(v1.len(), 173);
    assert_eq!(&v1[..4], &[0x05, 0x0c, 0x09, 0x01]);
    assert_eq!(*v1.last().unwrap(), 0xc0);
    let v2 = ProtocolHandler::create(ProtocolVersion::V2).hid_descriptor();
    assert_eq!(v2.len(), 93);
    let m6 = ProtocolHandler::create(ProtocolVersion::Module6Keys).hid_descriptor();
    assert_eq!(m6.len(), 203);
    let m15 = ProtocolHandler::create(ProtocolVersion::Module15_32Keys).hid_descriptor();
    assert_eq!(m15.len(), 139);
}

#[test]
fn dispatcher_reports_its_version() {
    for v in [ProtocolVersion::V1, ProtocolVersion::V2, ProtocolVersion::Module6Keys, ProtocolVersion::Module15_32Keys] {
        assert_eq!(ProtocolHandler::create(v).version(), v);
    }
}

struct Lcg(u64);

impl Lcg {
    fn next(&mut self) -> u64 {
        self.0 = self.0.wrapping_mul(6364136223846793005).wrapping_add(1442695040888963407);
        self.0 >> 33
    }
}

fn random_packet(rng: &mut Lcg, version: ProtocolVersion) -> Vec<u8> {
    let len = (rng.next() % 1100) as usize;
    let mut p: Vec<u8> = (0..len).map(|_| rng.next() as u8).collect();
    if p.len() >= 10 && rng.next() % 4 != 0 {
        match version {
            ProtocolVersion::V1 => {
                p[0] = 0x02;
                p[1] = 0x01;
                p[2] = (rng.next() % 3) as u8;
                p[5] = (rng.next() % 2) as u8;
            }
            ProtocolVersion::V2 => {
                p[0] = 0x02;
                p[1] = 0x07;
                p[2] = (rng.next() % 2) as u8;
                p[3] = (rng.next() % 8 == 0) as u8;
                p[6] = (rng.next() % 4) as u8;
                p[7] = 0;
            }
            _ => {
                p[0] = 0x02;
                p[1] = 0x01;
                p[2] = (rng.next() % 4) as u8;
                p[5] = (rng.next() % 2) as u8;
            }
        }
    }
    p
}

#[test]
fn random_output_reports_stay_within_capacity() {
    for version in [ProtocolVersion::V1, ProtocolVersion::V2, ProtocolVersion::Module6Keys, ProtocolVersion::Module15_32Keys] {
        let mut rng = Lcg(0x5eed + version as u64);
        let mut h = ProtocolHandler::create(version);
        for _ in 0..3000 {
            let p = random_packet(&mut rng, version);
            if let OutputReportResult::KeyImageComplete { image, .. } = h.parse_output_report(&p) {
                assert!(image.len() <= 32768);
            }
        }
    }
}

#[test]
fn v2_upload_of_capacity_plus_one_resets() {
    let mut h = V2Handler::new();
    let chunk = pattern(1016, 1);
    let mut seq: u16 = 0;
    let mut total = 0usize;
    while total + chunk.len() <= 32768 {
        assert!(matches!(h.parse_output_report(&v2_packet(2, false, seq, &chunk)), OutputReportResult::Incomplete));
        total += chunk.len();
        seq += 1;
    }
    let rest = 32768 - total;
    let fill = pattern(rest + 1, 2);
    assert!(matches!(h.parse_output_report(&v2_packet(2, true, seq, &fill)), OutputReportResult::Unhandled));
    assert!(matches!(h.parse_output_report(&v2_packet(2, true, seq + 1, &[1])), OutputReportResult::Unhandled));
}
