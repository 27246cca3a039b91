use productiondeck::config::{
    btn_col_pins, btn_direct_pins, btn_row_pins, button_input_mode, display_brightness,
    display_total_height, display_total_width, get_current_device, get_device_pid,
    hid_report_size_feature, hid_report_size_input, hid_report_size_output, key_image_bytes,
    key_image_size, set_button_input_mode, set_device_pid, streamdeck_cols, streamdeck_keys,
    streamdeck_rows, usb_manufacturer, usb_pid, usb_product, usb_vid, ButtonInputMode,
    ConfigError, DeckSettings,
};
use productiondeck::debounce::ButtonDebouncer;
use productiondeck::device::{
    ButtonLayout, Device, DeviceConfig, ImageFormat, MiniConfig, Module6Config, OriginalConfig,
    PlusConfig, ProtocolVersion, RevisedMiniConfig, XlConfig,
};
use productiondeck::types::{AppVersion, ButtonState};

#[test]
fn pid_round_trip() {
    for pid in Device::supported_pids() {
        let d = Device::from_pid(pid).expect("supported");
        assert_eq!(d.pid(), pid);
    }
    assert_eq!(Device::supported_pids().len(), 9);
    assert!(Device::from_pid(0x1234).is_none());
}

#[test]
fn derived_sizes() {
    assert_eq!(Device::Mini.max_image_size(), 54 + 80 * 80 * 3);
    assert_eq!(Device::Xl.max_image_size(), 96 * 96 / 2);
    assert_eq!(Device::Original.input_report_size(), 16);
    assert_eq!(Device::Xl.input_report_size(), 35);
    assert_eq!(Device::OriginalV2.input_report_size(), 18);
    assert_eq!(Device::Module6.input_report_size(), 65);
    assert_eq!(Device::Module32.input_report_size(), 65);
    assert_eq!(Device::Module15.input_report_size(), 65);
    assert_eq!(Device::Plus.feature_report_size(), 32);
    assert_eq!(Device::Plus.output_report_size(), 1024);
    assert_eq!(Device::Plus.hid_descriptor_size(), 173);
}

#[test]
fn device_descriptions() {
    let l = Device::Original.button_layout();
    assert_eq!((l.cols, l.rows, l.total_keys, l.left_to_right), (5, 3, 15, false));
    let d = Device::OriginalV2.display_config();
    assert_eq!(d.format, ImageFormat::Jpeg);
    assert!(d.flip_horizontal && d.flip_vertical && !d.needs_rotation);
    let u = Device::Module15.usb_config();
    assert_eq!(u.protocol, ProtocolVersion::Module15_32Keys);
    assert_eq!(u.vid, 0x0fd9);
    assert_eq!(Device::Xl.device_name(), "StreamDeck XL");
    assert_eq!(Device::Module6.usb_config().protocol, ProtocolVersion::Module6Keys);
}

#[test]
fn model_configs() {
    assert_eq!(MiniConfig.usb_config().pid, 0x0063);
    assert_eq!(RevisedMiniConfig.device_name(), "StreamDeck Revised Mini");
    assert_eq!(OriginalConfig.max_image_size(), 54 + 72 * 72 * 3);
    assert_eq!(XlConfig.button_layout().total_keys, 32);
    assert_eq!(PlusConfig.display_config().image_width, 120);
    assert_eq!(Module6Config.input_report_size(), 65);
}

#[test]
fn layout_new_multiplies() {
    let l = ButtonLayout::new(4, 2, true);
    assert_eq!(l.total_keys, 8);
}

#[test]
fn settings_select_device() {
    let mut s = DeckSettings::new();
    assert_eq!(get_device_pid(&s), 0x0063);
    assert!(matches!(get_current_device(&s), Device::Mini));
    assert_eq!(set_device_pid(&mut s, 0x006c), Ok(()));
    assert!(matches!(get_current_device(&s), Device::Xl));
    assert_eq!(set_device_pid(&mut s, 0x9999), Err(ConfigError::UnsupportedDevice));
    assert_eq!(get_device_pid(&s), 0x006c);
    assert_eq!(usb_vid(&s), 0x0fd9);
    assert_eq!(usb_pid(&s), 0x006c);
    assert_eq!(usb_pid(&s), get_device_pid(&s));
    assert_eq!(usb_manufacturer(&s), "Elgato Systems");
    assert_eq!(usb_product(&s), "Stream Deck XL");
    assert_eq!((streamdeck_keys(&s), streamdeck_cols(&s), streamdeck_rows(&s)), (32, 8, 4));
    assert_eq!(key_image_size(&s), 96);
    assert_eq!(key_image_bytes(&s), 96 * 96 * 3);
    assert_eq!(hid_report_size_input(&s), 35);
    assert_eq!(hid_report_size_feature(&s), 32);
    assert_eq!(hid_report_size_output(&s), 1024);
    assert_eq!(btn_row_pins(&s), vec![2, 3, 7, 9]);
    assert_eq!(btn_col_pins(&s), vec![4, 5, 6, 10, 11, 12, 13, 16]);
    assert_eq!(btn_direct_pins(&s), vec![4, 5, 6, 10, 11, 12, 13, 16]);
    assert_eq!(display_total_width(&s), 8 * 96);
    assert_eq!(display_total_height(&s), 4 * 96);
    assert_eq!(display_brightness(), 255);
}

#[test]
fn settings_mini_pins_and_mode() {
    let mut s = DeckSettings::new();
    assert!(Device::from_pid(get_device_pid(&s)).is_some());
    for pid in Device::supported_pids() {
        set_device_pid(&mut s, pid).unwrap();
        assert_eq!(usb_pid(&s), pid);
        assert_eq!(get_current_device(&s).pid(), pid);
    }
    let mut s = DeckSettings::new();
    assert_eq!(btn_row_pins(&s), vec![2, 3]);
    assert_eq!(btn_col_pins(&s), vec![4, 5, 6]);
    assert_eq!(btn_direct_pins(&s), vec![4, 5, 6, 10, 11, 12]);
    assert!(matches!(button_input_mode(&s), ButtonInputMode::Matrix));
    set_button_input_mode(&mut s, ButtonInputMode::Direct);
    assert!(matches!(button_input_mode(&s), ButtonInputMode::Direct));
}

#[test]
fn button_state_tracks_changes() {
    let mut b = ButtonState::new(40);
    assert_eq!(b.active_count, 32);
    let mut b6 = ButtonState::new(6);
    b6.set_button(2, true);
    assert!(b6.is_pressed(2) && b6.changed);
    b6.set_button(7, true);
    assert!(!b6.is_pressed(7));
    b.set_button(31, false);
    assert!(!b.changed);
}

#[test]
fn app_version_string() {
    let v = AppVersion::new(0, 1, 0);
    assert_eq!((v.major, v.minor, v.patch), (0, 1, 0));
    assert_eq!(v.as_string(), "0.1.0");
}

#[test]
fn debouncer_waits_for_stable_state() {
    let mut d = ButtonDebouncer::new(0);
    assert!(!d.update(0, true, 5));
    assert!(!d.update(0, true, 24));
    assert!(d.update(0, true, 25));
    assert!(d.get_state(0));
    assert!(!d.update(0, true, 100));
    assert!(!d.update(0, false, 101));
    assert!(d.get_state(0));
    assert!(d.update(0, false, 121));
    assert!(!d.get_state(0));
}
