use bltui::agent::{AgentEvent, BluezError};
use bltui::app::{AppState, Command};
use bltui::devices::{Device, MacAddress};
use bltui::events::{AdapterEvent, AppEvent, UserAction};
use tokio::sync::oneshot;

fn mac(last_byte: u8) -> MacAddress {
    MacAddress::from_bytes(0xAA, 0xBB, 0xCC, 0xDD, 0xEE, last_byte)
}

fn device(last_byte: u8, name: Option<&str>, connected: bool, paired: bool) -> Device {
    Device {
        name: name.map(|n| n.to_string()),
        address: mac(last_byte),
        connected,
        paired,
        rssi: None,
        tx_power: None,
    }
}

fn populated_state() -> AppState {
    let mut state = AppState::new();
    state.handle_event(AppEvent::Adapter(AdapterEvent::Discovered(device(
        0x01,
        Some("one"),
        false,
        false,
    ))));
    state.handle_event(AppEvent::Adapter(AdapterEvent::Discovered(device(
        0x02,
        Some("two"),
        false,
        false,
    ))));
    state
}

#[test]
fn input_gate_blocks_registry_cursor() {
    let mut state = populated_state();
    state.handle_event(AppEvent::Input(UserAction::MoveDown));
    assert_eq!(state.devices().selected_index(), Some(0));

    let (tx, _rx) = oneshot::channel();
    state.handle_event(AppEvent::Agent(AgentEvent::RequestConfirmation {
        passkey: 1234,
        tx,
        address: mac(0x01),
    }));
    assert!(state.popup_is_active());

    state.handle_event(AppEvent::Input(UserAction::MoveDown));
    state.handle_event(AppEvent::Input(UserAction::MoveDown));
    state.handle_event(AppEvent::Input(UserAction::MoveUp));
    assert_eq!(state.devices().selected_index(), Some(0));
    assert_eq!(state.popup_selected_index(), Some(0));
}

#[test]
fn confirmation_rejected_scenario() {
    let mut state = AppState::new();
    let (tx, mut rx) = oneshot::channel();
    let cmd = state.handle_event(AppEvent::Agent(AgentEvent::RequestConfirmation {
        passkey: 123456,
        tx,
        address: mac(0x01),
    }));
    assert_eq!(cmd, Command::Nothing);
    assert!(state.popup_is_active());
    let widget = state.popup_widget().unwrap();
    assert_eq!(widget.question, "Confirm pairing with passkey 123456");
    assert_eq!(widget.selected, None);

    // Select option 1 (reject) and confirm.
    state.handle_event(AppEvent::Input(UserAction::MoveDown));
    state.handle_event(AppEvent::Input(UserAction::MoveDown));
    assert_eq!(state.popup_selected_index(), Some(1));
    state.handle_event(AppEvent::Input(UserAction::Confirm));

    assert!(!state.popup_is_active());
    match rx.try_recv().unwrap() {
        Err(BluezError::Rejected(reason)) => assert_eq!(reason, "rejected"),
        other => panic!("expected a rejection, got {:?}", other),
    }
}

#[test]
fn confirmation_accepted_scenario() {
    let mut state = AppState::new();
    let (tx, mut rx) = oneshot::channel();
    state.handle_event(AppEvent::Agent(AgentEvent::RequestConfirmation {
        passkey: 7,
        tx,
        address: mac(0x01),
    }));
    state.handle_event(AppEvent::Input(UserAction::MoveDown));
    assert_eq!(state.popup_selected_index(), Some(0));
    state.handle_event(AppEvent::Input(UserAction::Confirm));
    assert!(!state.popup_is_active());
    assert!(rx.try_recv().unwrap().is_ok());
}

#[test]
fn confirm_without_choice_cancels() {
    let mut state = AppState::new();
    let (tx, mut rx) = oneshot::channel();
    state.handle_event(AppEvent::Agent(AgentEvent::RequestAuthorization {
        tx,
        address: mac(0x01),
    }));
    assert_eq!(
        state.popup_widget().unwrap().question,
        "Accept pairing authorization ?"
    );
    state.handle_event(AppEvent::Input(UserAction::Confirm));
    match rx.try_recv().unwrap() {
        Err(BluezError::Canceled(reason)) => assert_eq!(reason, "canceled"),
        other => panic!("expected a cancellation, got {:?}", other),
    }
}

#[test]
fn cancel_resolves_pending_popup() {
    let mut state = AppState::new();
    let (tx, mut rx) = oneshot::channel();
    state.handle_event(AppEvent::Agent(AgentEvent::RequestConfirmation {
        passkey: 42,
        tx,
        address: mac(0x01),
    }));
    assert!(state.popup_is_active());

    let (cancel_tx, mut cancel_rx) = oneshot::channel();
    let cmd = state.handle_event(AppEvent::Agent(AgentEvent::Cancel { tx: cancel_tx }));
    assert_eq!(cmd, Command::Nothing);
    assert!(!state.popup_is_active());
    match rx.try_recv().unwrap() {
        Err(BluezError::Canceled(reason)) => assert_eq!(reason, "canceled"),
        other => panic!("expected a cancellation, got {:?}", other),
    }
    assert!(cancel_rx.try_recv().unwrap().is_ok());
}

#[test]
fn orphaned_reply_slot_is_tolerated() {
    // The asking side timed out and dropped its receiver; resolving the
    // popup must neither fail nor block the next request.
    let mut state = AppState::new();
    let (tx, rx) = oneshot::channel();
    state.handle_event(AppEvent::Agent(AgentEvent::RequestConfirmation {
        passkey: 9,
        tx,
        address: mac(0x01),
    }));
    drop(rx);
    state.handle_event(AppEvent::Input(UserAction::Confirm));
    assert!(!state.popup_is_active());

    let (tx2, mut rx2) = oneshot::channel();
    state.handle_event(AppEvent::Agent(AgentEvent::RequestConfirmation {
        passkey: 10,
        tx: tx2,
        address: mac(0x01),
    }));
    assert!(state.popup_is_active());
    state.handle_event(AppEvent::Input(UserAction::MoveDown));
    state.handle_event(AppEvent::Input(UserAction::Confirm));
    assert!(rx2.try_recv().unwrap().is_ok());
}

#[test]
fn reply_slot_resolved_exactly_once() {
    let mut state = AppState::new();
    let (tx, mut rx) = oneshot::channel();
    state.handle_event(AppEvent::Agent(AgentEvent::RequestConfirmation {
        passkey: 5,
        tx,
        address: mac(0x01),
    }));
    state.handle_event(AppEvent::Input(UserAction::MoveDown));
    state.handle_event(AppEvent::Input(UserAction::Confirm));

    // Exactly one value comes out of the slot; asking again finds it closed.
    assert!(rx.try_recv().is_ok());
    assert!(rx.try_recv().is_err());

    // A confirm with no popup pending resolves nothing.
    let cmd = state.handle_event(AppEvent::Input(UserAction::Confirm));
    assert_eq!(cmd, Command::Nothing);
}

#[test]
fn second_question_rejected_as_busy() {
    let mut state = AppState::new();
    let (tx1, _rx1) = oneshot::channel();
    state.handle_event(AppEvent::Agent(AgentEvent::RequestConfirmation {
        passkey: 1,
        tx: tx1,
        address: mac(0x01),
    }));
    let first_question = state.popup_widget().unwrap().question;

    let (tx2, mut rx2) = oneshot::channel();
    state.handle_event(AppEvent::Agent(AgentEvent::AuthorizeService {
        uuid: "180f".to_string(),
        tx: tx2,
        address: mac(0x02),
    }));
    // The first question stays; the newcomer is answered at once.
    assert_eq!(state.popup_widget().unwrap().question, first_question);
    match rx2.try_recv().unwrap() {
        Err(BluezError::Rejected(reason)) => assert_eq!(reason, "busy"),
        other => panic!("expected a busy rejection, got {:?}", other),
    }
}

#[test]
fn authorize_service_question_names_service() {
    let mut state = AppState::new();
    let (tx, _rx) = oneshot::channel();
    state.handle_event(AppEvent::Agent(AgentEvent::AuthorizeService {
        uuid: "0000180f".to_string(),
        tx,
        address: mac(0x01),
    }));
    assert_eq!(
        state.popup_widget().unwrap().question,
        "Confirm service authorization (0000180f)"
    );
}

#[test]
fn display_questions_show_their_payload() {
    let mut state = AppState::new();
    let (tx, _rx) = oneshot::channel();
    state.handle_event(AppEvent::Agent(AgentEvent::DisplayPasskey {
        passkey: 123456,
        tx,
        address: mac(0x01),
    }));
    assert_eq!(state.popup_widget().unwrap().question, "Passkey : 123456");
    state.handle_event(AppEvent::Input(UserAction::Confirm));

    let (tx2, _rx2) = oneshot::channel();
    state.handle_event(AppEvent::Agent(AgentEvent::DisplayPincode {
        pincode: "0000".to_string(),
        tx: tx2,
        address: mac(0x01),
    }));
    assert_eq!(state.popup_widget().unwrap().question, "Pincode : 0000");
}

#[test]
fn free_form_requests_are_rejected_at_once() {
    let mut state = AppState::new();
    let (tx, mut rx) = oneshot::channel::<Result<u32, BluezError>>();
    state.handle_event(AppEvent::Agent(AgentEvent::RequestPasskey {
        tx,
        address: mac(0x01),
    }));
    assert!(!state.popup_is_active());
    match rx.try_recv().unwrap() {
        Err(BluezError::Rejected(reason)) => assert_eq!(reason, "no input method"),
        other => panic!("expected a rejection, got {:?}", other),
    }

    let (tx2, mut rx2) = oneshot::channel::<Result<String, BluezError>>();
    state.handle_event(AppEvent::Agent(AgentEvent::RequestPincode {
        tx: tx2,
        address: mac(0x01),
    }));
    match rx2.try_recv().unwrap() {
        Err(BluezError::Rejected(reason)) => assert_eq!(reason, "no input method"),
        other => panic!("expected a rejection, got {:?}", other),
    }
}

#[test]
fn release_acknowledges_and_requests_shutdown() {
    let mut state = AppState::new();
    let (tx, mut rx) = oneshot::channel();
    let cmd = state.handle_event(AppEvent::Agent(AgentEvent::Release { tx }));
    assert_eq!(cmd, Command::PostQuit);
    assert!(rx.try_recv().unwrap().is_ok());
}

#[test]
fn quit_clears_pending_popup() {
    let mut state = AppState::new();
    let (tx, mut rx) = oneshot::channel();
    state.handle_event(AppEvent::Agent(AgentEvent::RequestConfirmation {
        passkey: 3,
        tx,
        address: mac(0x01),
    }));
    let cmd = state.handle_event(AppEvent::Quit);
    assert_eq!(cmd, Command::Shutdown);
    assert!(!state.popup_is_active());
    assert!(matches!(rx.try_recv().unwrap(), Err(BluezError::Canceled(_))));
}

#[test]
fn tick_only_renders() {
    let mut state = populated_state();
    let cmd = state.handle_event(AppEvent::Tick);
    assert_eq!(cmd, Command::Render);
    assert_eq!(state.devices().len(), 2);
}

#[test]
fn scan_toggle_flips_and_commands() {
    let mut state = AppState::new();
    assert!(!state.is_scanning());
    let cmd = state.handle_event(AppEvent::Input(UserAction::TriggerScan));
    assert_eq!(cmd, Command::ToggleScan);
    assert!(state.is_scanning());
    let cmd = state.handle_event(AppEvent::Input(UserAction::TriggerScan));
    assert_eq!(cmd, Command::ToggleScan);
    assert!(!state.is_scanning());
}

#[test]
fn connect_spawns_for_selected_device() {
    let mut state = populated_state();
    let cmd = state.handle_event(AppEvent::Input(UserAction::Connect));
    assert_eq!(cmd, Command::Nothing);

    state.handle_event(AppEvent::Input(UserAction::MoveDown));
    let cmd = state.handle_event(AppEvent::Input(UserAction::Connect));
    assert_eq!(cmd, Command::SpawnConnect(mac(0x01)));
    assert!(state.is_connecting(&mac(0x01)));

    state.handle_event(AppEvent::Adapter(AdapterEvent::Connected(device(
        0x01,
        Some("one"),
        true,
        false,
    ))));
    assert!(!state.is_connecting(&mac(0x01)));
    assert!(state
        .devices()
        .get_by_mac_address(&mac(0x01))
        .unwrap()
        .connected);
}

#[test]
fn failed_operations_clear_in_flight_marks() {
    let mut state = populated_state();
    state.handle_event(AppEvent::Adapter(AdapterEvent::Connecting(device(
        0x02,
        Some("two"),
        false,
        false,
    ))));
    assert!(state.is_connecting(&mac(0x02)));
    state.handle_event(AppEvent::Adapter(AdapterEvent::FailedToConnect(device(
        0x02,
        Some("two"),
        false,
        false,
    ))));
    assert!(!state.is_connecting(&mac(0x02)));

    state.handle_event(AppEvent::Adapter(AdapterEvent::Disconnecting(device(
        0x01,
        Some("one"),
        true,
        false,
    ))));
    assert!(state.is_disconnecting(&mac(0x01)));
    state.handle_event(AppEvent::Adapter(AdapterEvent::Disconnected(device(
        0x01,
        Some("one"),
        false,
        false,
    ))));
    assert!(!state.is_disconnecting(&mac(0x01)));
}

#[test]
fn navigation_follows_display_order() {
    let mut state = AppState::new();
    // Registry order: plain named, connected, unnamed.
    state.handle_event(AppEvent::Adapter(AdapterEvent::Discovered(device(
        0x01,
        Some("plain"),
        false,
        false,
    ))));
    state.handle_event(AppEvent::Adapter(AdapterEvent::Discovered(device(
        0x02,
        Some("linked"),
        true,
        false,
    ))));
    state.handle_event(AppEvent::Adapter(AdapterEvent::Discovered(device(
        0x03,
        None,
        false,
        false,
    ))));

    // Display order hides the unnamed record: linked first, then plain.
    state.handle_event(AppEvent::Input(UserAction::MoveDown));
    assert_eq!(state.selected_device().unwrap().address, mac(0x02));
    state.handle_event(AppEvent::Input(UserAction::MoveDown));
    assert_eq!(state.selected_device().unwrap().address, mac(0x01));
    // Clamped at the end of the display order.
    state.handle_event(AppEvent::Input(UserAction::MoveDown));
    assert_eq!(state.selected_device().unwrap().address, mac(0x01));
    state.handle_event(AppEvent::Input(UserAction::MoveUp));
    assert_eq!(state.selected_device().unwrap().address, mac(0x02));
    state.handle_event(AppEvent::Input(UserAction::MoveUp));
    assert_eq!(state.selected_device().unwrap().address, mac(0x02));
}

#[test]
fn unset_cursor_jumps_to_order_ends() {
    let mut state = populated_state();
    state.handle_event(AppEvent::Input(UserAction::MoveUp));
    assert_eq!(state.selected_device().unwrap().address, mac(0x02));
}
