//! Tests of the data model: active-low button queries, the named-button
//! mapping, configuration bit packing and identity decoding.

use joyport::controller::CombinedGenericButtons;
use joyport::controller::Configuration;
use joyport::controller::ControllerError;
use joyport::controller::ControllerID;
use joyport::controller::ControllerState;
use joyport::controller::ControllerType;
use joyport::controller::ExtendedValues;
use joyport::controller::GenericButton;
use joyport::controller::RawButtonStates;
use joyport::controller::RawController;
use joyport::digital_controller::DigitalButton;
use joyport::digital_controller::DigitalController;
use joyport::peripheral::ControllerSlot;

fn pad(id: u8, state: ControllerState, states: u16) -> RawController {
    RawController {
        id: ControllerID { id },
        state,
        buttons: RawButtonStates { states },
        extended: ExtendedValues { b0: 0, b1: 0, b2: 0, b3: 0 },
    }
}

#[test]
fn button_query_inverts_the_active_low_wire_bit() {
    // bit 0 cleared: D8 pressed; bit 15 set: D7 released
    let buttons = RawButtonStates { states: 0xFFFE };
    assert!(buttons.is_down(GenericButton::D8));
    assert!(!buttons.is_down(GenericButton::D7));
    // all bits cleared: everything pressed; all set: nothing pressed
    let all_pressed = RawButtonStates { states: 0x0000 };
    let none_pressed = RawButtonStates { states: 0xFFFF };
    for button in [GenericButton::D0, GenericButton::D5, GenericButton::D10, GenericButton::D15] {
        assert!(all_pressed.is_down(button));
        assert!(!none_pressed.is_down(button));
    }
}

#[test]
fn combined_query_reports_any_pressed() {
    let mask = GenericButton::D8.or(GenericButton::D9);
    // D9 (bit 1) cleared: at least one of the two is pressed
    assert!(RawButtonStates { states: 0xFFFD }.are_any_down(mask));
    // both set: none pressed
    assert!(!RawButtonStates { states: 0xFFFF }.are_any_down(mask));
    let wider = mask.or(GenericButton::D15);
    assert!(RawButtonStates { states: 0xFF7F }.are_any_down(wider));
}

#[test]
fn named_buttons_sit_on_their_wire_bits() {
    // select is the lowest bit of the first button byte
    let buttons = RawButtonStates { states: !0x0001 };
    let controller = DigitalController { raw: pad(0x41, ControllerState::Stable, !0x0001) };
    assert!(buttons.is_down(GenericButton::D8));
    assert!(controller.is_button_down(DigitalButton::Select));
    assert!(!controller.is_button_down(DigitalButton::Start));
    // the character buttons live in the high byte
    let shapes = DigitalController { raw: pad(0x41, ControllerState::Stable, !0x1000) };
    assert!(shapes.is_button_down(DigitalButton::Triangle));
    assert!(!shapes.is_button_down(DigitalButton::Circle));
    let cross = DigitalController { raw: pad(0x41, ControllerState::Stable, !0x4000) };
    assert!(cross.is_button_down(DigitalButton::Cross));
    let left = DigitalController { raw: pad(0x41, ControllerState::Stable, !0x0080) };
    assert!(left.is_button_down(DigitalButton::Left));
}

#[test]
fn configuration_packs_its_three_flags() {
    let all = Configuration::new()
        .with_analog_mode(true)
        .with_lock_mode(true)
        .with_enable_rumble(true);
    assert_eq!(all.into_bits(), 0x07);
    assert_eq!(Configuration::new().into_bits(), 0x00);
    assert_eq!(Configuration::new().with_lock_mode(true).into_bits(), 0x02);
    let unpacked = Configuration::from_bits(0xFA);
    assert!(!unpacked.analog_mode());
    assert!(unpacked.lock_mode());
    assert!(!unpacked.enable_rumble());
    // a round trip through the wire byte keeps the flags
    assert_eq!(Configuration::from_bits(all.into_bits()), all);
}

#[test]
fn identity_nibble_selects_the_family() {
    let expected = [
        (0x0, ControllerType::Unknown),
        (0x1, ControllerType::Mouse),
        (0x2, ControllerType::NegCon),
        (0x3, ControllerType::HyperBlaster),
        (0x4, ControllerType::Controller),
        (0x5, ControllerType::ArcadeFlightStick),
        (0x6, ControllerType::GCon),
        (0x7, ControllerType::DualShock),
        (0x8, ControllerType::MultiTap),
        (0x9, ControllerType::Unknown),
        (0xF, ControllerType::HighZ),
    ];
    for (nibble, family) in expected {
        assert_eq!(ControllerType::from_nibble(nibble), family);
        let id = ControllerID::from_byte(nibble << 4 | 0x1);
        assert_eq!(id.controller_type(), family);
    }
    assert!(ControllerID::from_byte(0xF3).in_config_mode());
    assert!(!ControllerID::from_byte(0x41).in_config_mode());
}

#[test]
fn binding_a_digital_pad_succeeds_only_when_stable() {
    let stable = ControllerSlot {
        controller: Some(pad(0x41, ControllerState::Stable, 0xFFFF)),
        configuration: None,
    };
    assert!(DigitalController::from_port_a(&stable).is_ok());
    assert!(DigitalController::from_port_b(&stable).is_ok());

    let transitional = ControllerSlot {
        controller: Some(pad(0x41, ControllerState::New, 0xFFFF)),
        configuration: None,
    };
    assert!(matches!(
        DigitalController::from_port_a(&transitional),
        Err(ControllerError::NotConnected)
    ));

    let empty = ControllerSlot { controller: None, configuration: None };
    assert!(matches!(
        DigitalController::from_port_a(&empty),
        Err(ControllerError::NotConnected)
    ));
}

#[test]
fn binding_rejects_other_device_families() {
    let analog = ControllerSlot {
        controller: Some(pad(0x73, ControllerState::Stable, 0xFFFF)),
        configuration: None,
    };
    assert!(matches!(
        DigitalController::from_port_a(&analog),
        Err(ControllerError::WrongType(ControllerType::DualShock))
    ));
    let mouse = ControllerSlot {
        controller: Some(pad(0x12, ControllerState::Stable, 0xFFFF)),
        configuration: None,
    };
    assert!(matches!(
        DigitalController::from_port_b(&mouse),
        Err(ControllerError::WrongType(ControllerType::Mouse))
    ));
}

#[test]
fn combined_masks_join_bit_positions() {
    let mask = GenericButton::D8.or(GenericButton::D15);
    assert_eq!(mask, CombinedGenericButtons(0x0081));
    assert_eq!(mask.or(GenericButton::D0), CombinedGenericButtons(0x0181));
}
