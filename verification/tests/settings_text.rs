use bltui::agent::AgentCapability;
use bltui::devices::{Device, MacAddress};
use bltui::get_periph_name;
use bltui::popup::{ConfirmationPopup, InputPopup, PopupInput, QuestionPopup, YesNoPopup};
use bltui::settings::{translate_log_level, AppSettings, CliSettings, Config, LogLevel};
use bltui::text::{i64_to_string, u64_to_string};
use bltui::ui::{device_label, device_row, get_device_details};
use tokio::sync::oneshot;

fn mac(last_byte: u8) -> MacAddress {
    MacAddress::from_bytes(0xAA, 0xBB, 0xCC, 0xDD, 0xEE, last_byte)
}

#[test]
fn log_level_translation() {
    assert_eq!(translate_log_level(0), LogLevel::Info);
    assert_eq!(translate_log_level(1), LogLevel::Debug);
    assert_eq!(translate_log_level(2), LogLevel::Trace);
    assert_eq!(translate_log_level(9), LogLevel::Trace);
}

#[test]
fn cli_settings_log_level() {
    let cli = CliSettings { debug: 1, show_unknown: false, log_to_file: false, adapter: None };
    assert_eq!(cli.get_log_level(), LogLevel::Debug);
}

#[test]
fn settings_merge_cli_wins_for_adapter() {
    let cli = CliSettings {
        debug: 0,
        show_unknown: true,
        log_to_file: true,
        adapter: Some("hci1".to_string()),
    };
    let config = Config { adapter: Some("hci0".to_string()), log_path: None };
    let settings =
        AppSettings::from_cli_and_file_settings(cli, config, "/home/op/.bltui".to_string());
    assert_eq!(settings.adapter.as_deref(), Some("hci1"));
    assert!(settings.display_settings.show_unknown);
    assert!(settings.log_settings.log_to_file);
    assert_eq!(settings.log_settings.level, LogLevel::Info);
    assert_eq!(settings.log_settings.folder, "/home/op/.bltui/logs");
}

#[test]
fn settings_merge_file_fills_gaps() {
    let cli = CliSettings { debug: 2, show_unknown: false, log_to_file: false, adapter: None };
    let config = Config {
        adapter: Some("hci0".to_string()),
        log_path: Some("/log/path".to_string()),
    };
    let settings =
        AppSettings::from_cli_and_file_settings(cli, config, "/home/op/.bltui".to_string());
    assert_eq!(settings.adapter.as_deref(), Some("hci0"));
    assert_eq!(settings.log_settings.folder, "/log/path");
    assert_eq!(settings.log_settings.level, LogLevel::Trace);
}

#[test]
fn settings_parse_without_config_file() {
    let cli = CliSettings { debug: 0, show_unknown: false, log_to_file: false, adapter: None };
    let settings = AppSettings::parse(cli, None, "/home/op/.bltui".to_string());
    assert_eq!(settings.adapter, None);
    assert_eq!(settings.log_settings.folder, "/home/op/.bltui/logs");
}

#[test]
fn decimal_renderings() {
    assert_eq!(u64_to_string(0), "0");
    assert_eq!(u64_to_string(123456), "123456");
    assert_eq!(u64_to_string(u64::MAX), "18446744073709551615");
    assert_eq!(i64_to_string(-42), "-42");
    assert_eq!(i64_to_string(7), "7");
    assert_eq!(i64_to_string(0), "0");
}

#[test]
fn periph_name_defaults_to_unknown() {
    assert_eq!(get_periph_name(Some("JBL Flip".to_string())), "JBL Flip");
    assert_eq!(get_periph_name(None), "Unknown");
}

#[test]
fn device_labels_and_rows() {
    let named = Device {
        name: Some("headset".to_string()),
        address: mac(0x01),
        connected: true,
        paired: true,
        rssi: None,
        tx_power: None,
    };
    assert_eq!(device_label(&named), "headset");
    assert_eq!(
        device_row(&named, false, false),
        "headset (Connected) (Paired)"
    );
    assert_eq!(
        device_row(&named, true, false),
        "headset (Connecting) (Connected) (Paired)"
    );

    let unnamed = Device {
        name: None,
        address: mac(0x02),
        connected: false,
        paired: false,
        rssi: None,
        tx_power: None,
    };
    assert_eq!(device_label(&unnamed), "Unknown");
    assert_eq!(device_row(&unnamed, false, false), "Unknown (AA:BB:CC:DD:EE:02)");
    assert_eq!(
        device_row(&unnamed, false, true),
        "Unknown (AA:BB:CC:DD:EE:02) (Disconnecting)"
    );
}

#[test]
fn device_details_lines() {
    let d = Device {
        name: Some("mouse".to_string()),
        address: mac(0x03),
        connected: true,
        paired: false,
        rssi: Some(-42),
        tx_power: None,
    };
    let lines = get_device_details(Some(d));
    assert_eq!(
        lines,
        vec![
            "mouse".to_string(),
            "Address : AA:BB:CC:DD:EE:03".to_string(),
            "Signal strenth : -42 dBm".to_string(),
            "Tx power : 0 dBm".to_string(),
            "Connected : yes".to_string(),
        ]
    );

    let none_lines = get_device_details(None);
    assert_eq!(none_lines, vec![String::new()]);

    let disconnected = Device {
        name: None,
        address: mac(0x04),
        connected: false,
        paired: false,
        rssi: None,
        tx_power: Some(4),
    };
    let lines = get_device_details(Some(disconnected));
    assert_eq!(lines[0], "Unknown");
    assert_eq!(lines[2], "Signal strenth : 0 dBm");
    assert_eq!(lines[3], "Tx power : 4 dBm");
    assert_eq!(lines[4], "Connected : no");
}

#[test]
fn capability_names() {
    assert_eq!(AgentCapability::KeyboardDisplay.as_str(), "KeyboardDisplay");
    assert_eq!(AgentCapability::DisplayOnly.as_str(), "DisplayOnly");
    assert_eq!(AgentCapability::NoInputNoOutput.as_str(), "NoInputNoOutput");
}

#[test]
fn yes_no_popup_options_and_decision() {
    let (tx, _rx) = oneshot::channel();
    let mut popup = YesNoPopup::new("Pair?".to_string(), tx);
    let options = popup.options();
    assert_eq!(options, vec!["Yes".to_string(), "No".to_string()]);
    assert_eq!(popup.question().as_str(), "Pair?");

    assert!(matches!(
        popup.decide(),
        Err(bltui::agent::BluezError::Canceled(_))
    ));
    popup.move_selector_down();
    assert!(popup.decide().is_ok());
    popup.move_selector_down();
    assert!(matches!(
        popup.decide(),
        Err(bltui::agent::BluezError::Rejected(_))
    ));
    popup.move_selector_down();
    assert_eq!(popup.selected_index(), Some(1));
    popup.move_selector_up();
    assert_eq!(popup.selected_index(), Some(0));
    popup.move_selector_up();
    assert_eq!(popup.selected_index(), Some(0));
}

#[test]
fn yes_no_popup_resolves_through_channel() {
    let (tx, mut rx) = oneshot::channel();
    let mut popup = YesNoPopup::new("Pair?".to_string(), tx);
    popup.move_selector_down();
    popup.confirm();
    assert!(rx.try_recv().unwrap().is_ok());
}

#[test]
fn question_popup_cursor_clamps_to_options() {
    let options = vec!["a".to_string(), "b".to_string(), "c".to_string()];
    let mut popup = QuestionPopup::new("Which?".to_string(), options);
    assert_eq!(popup.selected_index(), None);
    popup.move_selector_down();
    assert_eq!(popup.selected_index(), Some(0));
    popup.move_selector_down();
    popup.move_selector_down();
    popup.move_selector_down();
    assert_eq!(popup.selected_index(), Some(2));
    popup.move_selector_up();
    assert_eq!(popup.selected_index(), Some(1));

    let mut empty = QuestionPopup::new("None?".to_string(), Vec::new());
    empty.move_selector_down();
    assert_eq!(empty.selected_index(), None);
    empty.move_selector_up();
    assert_eq!(empty.selected_index(), None);
}

#[test]
fn inert_popup_pieces_hold_their_text() {
    let confirmation = ConfirmationPopup::new("Pincode".to_string(), "Pincode: 1234".to_string());
    assert_eq!(confirmation.title, "Pincode");
    assert_eq!(confirmation.message, "Pincode: 1234");

    let input = PopupInput::new(true);
    assert_eq!(input.content, "");
    assert!(input.nbrs_only);

    let input_popup = InputPopup::new("Passkey".to_string(), "Enter it".to_string(), true);
    assert_eq!(input_popup.title, "Passkey");
    assert_eq!(input_popup.message, "Enter it");
    assert_eq!(input_popup.input.content, "");
}
