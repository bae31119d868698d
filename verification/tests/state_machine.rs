//! Scenario tests of the per-slot state machine: discovery, negotiation,
//! stabilisation, identity changes and failure resets, tick by tick.

use joyport::controller::Configuration;
use joyport::controller::ControllerID;
use joyport::controller::ControllerState;
use joyport::controller::ExtendedValues;
use joyport::controller::RawButtonStates;
use joyport::controller::RawController;
use joyport::peripheral::process_controller;
use joyport::peripheral::update_controller;
use joyport::peripheral::ControllerSlot;
use joyport::serial_connection::SerialConnection;

const NO_FAULT: usize = usize::MAX;

/// One tick of a single slot: builds a fresh bus activation from the
/// given script and steps the slot's controller once.
fn tick(
    controller: &mut Option<RawController>,
    configuration: &Option<Configuration>,
    replies: Vec<u8>,
    faulty_from: usize,
    acks: Vec<bool>,
) -> Vec<u8> {
    let mut conn = SerialConnection::activate(replies, faulty_from, acks);
    process_controller(&mut conn, controller, configuration, 0);
    conn.deactivate()
}

fn digital_pad_poll() -> Vec<u8> {
    vec![0xFF, 0x41, 0x5A, 0xFF, 0xFF]
}

fn stable_pad(id: u8) -> RawController {
    RawController {
        id: ControllerID { id },
        state: ControllerState::Stable,
        buttons: RawButtonStates { states: 0xFFFF },
        extended: ExtendedValues { b0: 0, b1: 0, b2: 0, b3: 0 },
    }
}

#[test]
fn detection_creates_a_new_controller() {
    let mut controller: Option<RawController> = None;
    tick(&mut controller, &None, digital_pad_poll(), NO_FAULT, vec![false]);
    let ctrl = controller.expect("a device answered identification");
    assert!(matches!(ctrl.get_state(), ControllerState::New));
    assert_eq!(ctrl.id.id, 0x41);
}

#[test]
fn detection_does_not_make_the_controller_visible_yet() {
    let mut slots = vec![ControllerSlot { controller: None, configuration: None }];
    update_controller(&mut slots, digital_pad_poll(), NO_FAULT, vec![false]);
    assert!(slots[0].controller.is_some());
    assert!(slots[0].stable_controller().is_none());
}

#[test]
fn no_configuration_stabilizes_one_tick_after_detection() {
    let mut controller: Option<RawController> = None;
    tick(&mut controller, &None, digital_pad_poll(), NO_FAULT, vec![false]);
    let transcript = tick(&mut controller, &None, Vec::new(), NO_FAULT, Vec::new());
    assert!(matches!(controller.unwrap().get_state(), ControllerState::Stable));
    // a new controller without a request settles without touching the bus
    assert!(transcript.is_empty());
}

#[test]
fn never_acknowledging_device_stabilizes_one_tick_after_detection() {
    let cfg = Some(Configuration::new().with_analog_mode(true).with_lock_mode(true));
    let mut controller: Option<RawController> = None;
    tick(&mut controller, &cfg, digital_pad_poll(), NO_FAULT, vec![false]);
    assert!(matches!(controller.unwrap().get_state(), ControllerState::New));
    tick(&mut controller, &cfg, vec![0xFF; 5], NO_FAULT, vec![false]);
    assert!(matches!(controller.unwrap().get_state(), ControllerState::Stable));
}

#[test]
fn matching_request_stabilizes_two_ticks_after_detection() {
    // the request equals the power-on default the device starts out with
    let cfg = Some(Configuration::new());
    let mut controller: Option<RawController> = None;
    tick(&mut controller, &cfg, digital_pad_poll(), NO_FAULT, vec![false]);
    // the device acknowledges negotiation
    tick(&mut controller, &cfg, vec![0xFF; 9], NO_FAULT, vec![true]);
    match controller.unwrap().get_state() {
        ControllerState::Negotiating(observed) => {
            assert_eq!(observed, Configuration::new());
        },
        other => panic!("expected negotiation, found {:?}", other),
    }
    // nothing to correct: the next tick leaves negotiation
    tick(&mut controller, &cfg, vec![0xFF; 9], NO_FAULT, vec![false]);
    assert!(matches!(controller.unwrap().get_state(), ControllerState::Stable));
}

#[test]
fn mismatched_request_keeps_negotiating_one_extra_tick() {
    let cfg = Some(Configuration::new().with_analog_mode(true).with_lock_mode(true));
    let mut controller = Some(RawController {
        id: ControllerID { id: 0x41 },
        state: ControllerState::Negotiating(Configuration::new()),
        buttons: RawButtonStates { states: 0xFFFF },
        extended: ExtendedValues { b0: 0, b1: 0, b2: 0, b3: 0 },
    });
    let transcript = tick(&mut controller, &cfg, vec![0xFF; 8], NO_FAULT, Vec::new());
    // the correction went out as a set-mode command
    assert_eq!(transcript, vec![0x01, 0x44, 0x00, 0x01, 0x03, 0x00, 0x00, 0x00]);
    let ctrl = controller.unwrap();
    match ctrl.get_state() {
        ControllerState::Negotiating(observed) => {
            assert!(observed.analog_mode());
            assert!(observed.lock_mode());
        },
        other => panic!("expected another negotiation round, found {:?}", other),
    }
    // the stored identity is advanced to the analog one the device will report
    assert_eq!(ctrl.id.id, 0x73);
    // observed now equals requested: the following tick settles
    tick(&mut controller, &cfg, vec![0xFF; 9], NO_FAULT, vec![false]);
    assert!(matches!(controller.unwrap().get_state(), ControllerState::Stable));
}

#[test]
fn identity_change_while_stable_resets_to_new() {
    let mut controller = Some(stable_pad(0x41));
    // the poll suddenly reports an analog pad with fresh button data
    tick(&mut controller, &None, vec![0xFF, 0x73, 0x5A, 0xAD, 0xDE], NO_FAULT, vec![false]);
    let ctrl = controller.unwrap();
    assert!(matches!(ctrl.get_state(), ControllerState::New));
    assert_eq!(ctrl.id.id, 0x73);
    // prior button data was discarded for the fresh poll's
    assert_eq!(ctrl.get_buttons().states, 0xDEAD);
}

#[test]
fn stable_poll_refreshes_button_data() {
    let mut controller = Some(stable_pad(0x41));
    tick(&mut controller, &None, vec![0xFF, 0x41, 0x5A, 0x34, 0x12], NO_FAULT, vec![false]);
    let ctrl = controller.unwrap();
    assert!(matches!(ctrl.get_state(), ControllerState::Stable));
    assert_eq!(ctrl.get_buttons().states, 0x1234);
}

#[test]
fn failed_exchange_while_stable_drops_the_controller() {
    let mut controller = Some(stable_pad(0x41));
    tick(&mut controller, &None, digital_pad_poll(), 1, vec![false]);
    assert!(controller.is_none());
}

#[test]
fn failed_exchange_while_negotiating_drops_the_controller() {
    let cfg = Some(Configuration::new().with_analog_mode(true));
    let mut controller = Some(RawController {
        id: ControllerID { id: 0x41 },
        state: ControllerState::Negotiating(Configuration::new()),
        buttons: RawButtonStates { states: 0xFFFF },
        extended: ExtendedValues { b0: 0, b1: 0, b2: 0, b3: 0 },
    });
    tick(&mut controller, &cfg, vec![0xFF; 8], 3, Vec::new());
    assert!(controller.is_none());
}

#[test]
fn failed_exchange_while_new_drops_the_controller() {
    let cfg = Some(Configuration::new().with_analog_mode(true));
    let mut controller: Option<RawController> = None;
    tick(&mut controller, &cfg, digital_pad_poll(), NO_FAULT, vec![false]);
    tick(&mut controller, &cfg, vec![0xFF; 9], 2, vec![true]);
    assert!(controller.is_none());
}

#[test]
fn tick_after_a_reset_attempts_fresh_identification() {
    let mut controller = Some(stable_pad(0x41));
    tick(&mut controller, &None, Vec::new(), 0, Vec::new());
    assert!(controller.is_none());
    let transcript = tick(&mut controller, &None, digital_pad_poll(), NO_FAULT, vec![false]);
    assert_eq!(&transcript[..3], &[0x01, 0x42, 0x00]);
}

#[test]
fn requested_configuration_converges_end_to_end() {
    let cfg = Some(Configuration::new().with_analog_mode(true).with_lock_mode(true));
    let mut controller: Option<RawController> = None;
    // detection
    tick(&mut controller, &cfg, digital_pad_poll(), NO_FAULT, vec![false]);
    // the device acknowledges negotiation
    tick(&mut controller, &cfg, vec![0xFF; 9], NO_FAULT, vec![true]);
    // the mismatch is corrected: observed becomes analog + locked
    tick(&mut controller, &cfg, vec![0xFF; 8], NO_FAULT, Vec::new());
    match controller.unwrap().get_state() {
        ControllerState::Negotiating(observed) => {
            assert!(observed.analog_mode() && observed.lock_mode());
        },
        other => panic!("expected a correction round, found {:?}", other),
    }
    // nothing left to correct: leave negotiation
    tick(&mut controller, &cfg, vec![0xFF; 9], NO_FAULT, vec![false]);
    assert!(matches!(controller.unwrap().get_state(), ControllerState::Stable));
    // and the slot stays stable over further polls of the analog pad
    for _ in 0..3 {
        tick(&mut controller, &cfg, vec![0xFF, 0x73, 0x5A, 0xFF, 0xFF], NO_FAULT, vec![false]);
        assert!(matches!(controller.unwrap().get_state(), ControllerState::Stable));
    }
}

#[test]
fn slot_defaults_request_analog_locked() {
    let slot = ControllerSlot::new();
    assert!(slot.controller.is_none());
    let cfg = slot.configuration.expect("a default request is present");
    assert!(cfg.analog_mode());
    assert!(cfg.lock_mode());
    assert!(!cfg.enable_rumble());
}

#[test]
fn request_configuration_restarts_negotiation() {
    let mut slot = ControllerSlot { controller: Some(stable_pad(0x41)), configuration: None };
    let wanted = Some(Configuration::new().with_analog_mode(true));
    slot.request_configuration(wanted);
    assert_eq!(slot.configuration, wanted);
    // the attached controller is forced back to the new state ...
    assert!(matches!(slot.controller.unwrap().get_state(), ControllerState::New));
    // ... and therefore hidden until negotiation finishes
    assert!(slot.stable_controller().is_none());
}

#[test]
fn visibility_follows_the_protocol_state() {
    let hidden = [
        ControllerState::New,
        ControllerState::Negotiating(Configuration::new()),
    ];
    for state in hidden {
        let slot = ControllerSlot {
            controller: Some(RawController { state, ..stable_pad(0x41) }),
            configuration: None,
        };
        assert!(slot.stable_controller().is_none());
    }
    let slot = ControllerSlot { controller: Some(stable_pad(0x41)), configuration: None };
    let visible = slot.stable_controller().expect("a stable controller is visible");
    assert_eq!(visible.id.id, 0x41);
    let empty = ControllerSlot { controller: None, configuration: None };
    assert!(empty.stable_controller().is_none());
}

#[test]
fn polling_cycle_addresses_each_slot_in_order() {
    let mut slots = vec![
        ControllerSlot { controller: None, configuration: None },
        ControllerSlot { controller: None, configuration: None },
    ];
    // one shared bus activation answers both identifications in turn
    let replies = vec![
        0xFF, 0x41, 0x5A, 0xFF, 0xFF, // slot 0: a digital pad
        0xFF, 0x73, 0x5A, 0xFF, 0xFF, // slot 1: an analog pad
    ];
    let transcript = update_controller(&mut slots, replies, NO_FAULT, vec![false, false]);
    assert_eq!(
        transcript,
        vec![0x01, 0x42, 0x00, 0x00, 0x00, 0x02, 0x42, 0x00, 0x00, 0x00]
    );
    assert_eq!(slots[0].controller.unwrap().id.id, 0x41);
    assert_eq!(slots[1].controller.unwrap().id.id, 0x73);
}

#[test]
fn polling_cycle_steps_every_slot() {
    let mut slots = vec![ControllerSlot::new()];
    // first cycle: detection
    update_controller(&mut slots, digital_pad_poll(), NO_FAULT, vec![false]);
    assert!(slots[0].controller.is_some());
    // second cycle: the default request goes into negotiation (acknowledged)
    update_controller(&mut slots, vec![0xFF; 9], NO_FAULT, vec![true]);
    assert!(matches!(
        slots[0].controller.unwrap().get_state(),
        ControllerState::Negotiating(_)
    ));
}
