use productiondeck::command::ModuleSetCommand;
use productiondeck::config::{set_device_pid, ButtonInputMode, DeckSettings};
use productiondeck::debounce::ButtonDebouncer;
use productiondeck::device::Device;
use productiondeck::display::{key_pixels, key_window};
use productiondeck::hardware::{input_plan, prefers_direct_input, HardwareConfig, InputPlan};
use productiondeck::report::OutputReportResult;
use productiondeck::supervisor::AppSupervisor;
use productiondeck::types::{display_command_for, image_command, usb_command_for, DisplayCommand, UsbCommand};

#[test]
fn pins_follow_layout() {
    let hw = HardwareConfig::for_device(Device::Original);
    assert_eq!(hw.button_pins.row_pins, vec![2, 3, 7]);
    assert_eq!(hw.button_pins.col_pins, vec![4, 5, 6, 10, 11]);
    assert_eq!(hw.display_pins.spi_mosi, 19);
    assert_eq!(hw.led_pins.status, 25);
    let plus = HardwareConfig::for_device(Device::Plus);
    assert_eq!(plus.button_pins.col_pins, vec![4, 5, 6, 10]);
    let mut s = DeckSettings::new();
    assert_eq!(HardwareConfig::for_current_device(&s).button_pins.col_pins, vec![4, 5, 6]);
    set_device_pid(&mut s, 0x00ba).unwrap();
    assert_eq!(HardwareConfig::for_current_device(&s).button_pins.row_pins, vec![2, 3, 7, 9]);
    assert!(prefers_direct_input(Device::RevisedMini));
    assert!(!prefers_direct_input(Device::Xl));
}

#[test]
fn supervisor_reports_every_minute() {
    let mut sup = AppSupervisor::new_for_device(Device::Mini);
    let due: Vec<bool> = (0..12).map(|_| sup.tick()).collect();
    assert_eq!(due, vec![false, false, false, false, false, true, false, false, false, false, false, true]);
    assert_eq!(sup.uptime(), 120);
    assert_eq!(sup.status_time(), (0, 2));
    for _ in 0..360 {
        sup.tick();
    }
    assert_eq!(sup.uptime(), 3720);
    assert_eq!(sup.status_time(), (1, 2));
    assert!(matches!(sup.device(), Device::Mini));
    let s = DeckSettings::new();
    assert_eq!(AppSupervisor::new(&s).uptime(), 0);
}

#[test]
fn key_window_on_shared_panel() {
    assert_eq!(key_window(4, 6, 3, 80), Some((80, 80, 159, 159)));
    assert_eq!(key_window(0, 6, 3, 80), Some((0, 0, 79, 79)));
    assert_eq!(key_window(6, 6, 3, 80), None);
}

#[test]
fn key_pixels_skip_bmp_header() {
    let mut bmp = vec![0x42, 0x4d];
    bmp.extend(std::iter::repeat(0).take(52));
    bmp.extend_from_slice(&[0xff, 0, 0, 0, 0xff, 0, 0, 0, 0xff, 0xff, 0xff, 0xff]);
    assert_eq!(key_pixels(&bmp, 2), Some(vec![0xf8, 0x00, 0x07, 0xe0, 0x00, 0x1f, 0xff, 0xff]));
    let raw = vec![0xff, 0, 0, 0xff, 0, 0, 0xff, 0, 0, 0xff, 0, 0, 9];
    assert_eq!(key_pixels(&raw, 2), Some(vec![0xf8, 0, 0xf8, 0, 0xf8, 0, 0xf8, 0]));
    assert_eq!(key_pixels(&raw[..11], 2), None);
}

#[test]
fn commands_route_to_display() {
    assert!(matches!(usb_command_for(ModuleSetCommand::Reset), Some(UsbCommand::Reset)));
    assert!(matches!(usb_command_for(ModuleSetCommand::SetBrightness { value: 7 }), Some(UsbCommand::SetBrightness(7))));
    assert!(usb_command_for(ModuleSetCommand::ShowLogo).is_none());
    assert!(matches!(display_command_for(UsbCommand::Reset), DisplayCommand::ClearAll));
    match display_command_for(UsbCommand::ImageData { key_id: 3, data: vec![1, 2] }) {
        DisplayCommand::DisplayImage { key_id, data } => {
            assert_eq!(key_id, 3);
            assert_eq!(data, vec![1, 2]);
        }
        _ => panic!("expected an image command"),
    }
    match image_command(OutputReportResult::KeyImageComplete { key_id: 1, image: vec![5] }) {
        Some(UsbCommand::ImageData { key_id, data }) => {
            assert_eq!(key_id, 1);
            assert_eq!(data, vec![5]);
        }
        _ => panic!("expected image data"),
    }
    assert!(image_command(OutputReportResult::Incomplete).is_none());
}

#[test]
fn scan_step_publishes_only_changes() {
    let mut d = ButtonDebouncer::new(0);
    let mut raw = [false; 32];
    raw[1] = true;
    raw[10] = true;
    assert!(d.scan_step(&raw, 6, 5).is_none());
    let st = d.scan_step(&raw, 6, 30).expect("key 1 settled");
    assert!(st.changed);
    assert_eq!(st.active_count, 6);
    assert!(st.buttons[1]);
    assert!(!st.buttons[10]);
    assert!(d.scan_step(&raw, 6, 40).is_none());
}

#[test]
fn input_plan_by_mode() {
    match input_plan(Device::Mini, ButtonInputMode::Direct) {
        InputPlan::Direct { pins } => assert_eq!(pins, vec![4, 5, 6, 10, 11, 12]),
        _ => panic!("expected direct input"),
    }
    match input_plan(Device::Xl, ButtonInputMode::Direct) {
        InputPlan::Direct { pins } => assert_eq!(pins, vec![4, 5, 6, 10, 11, 12, 13, 16]),
        _ => panic!("expected direct input"),
    }
    match input_plan(Device::Original, ButtonInputMode::Matrix) {
        InputPlan::Matrix { rows, cols } => {
            assert_eq!(rows, vec![2, 3, 7]);
            assert_eq!(cols, vec![4, 5, 6, 10, 11]);
        }
        _ => panic!("expected a matrix"),
    }
}
