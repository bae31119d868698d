//! The controller data model: identity, protocol state, button mask and
//! negotiated configuration.

use vstd::prelude::*;

verus! {

/// Various errors related to obtaining a controller
#[derive(Clone, Copy, PartialEq, Eq, Structural, Debug)]
pub enum ControllerError {
    /// Controller is not connected
    NotConnected,
    /// Type of controller does not match the requested type
    WrongType(ControllerType),
}

/// The type/family of the controller, selected by the high nibble of the
/// identity byte.
#[derive(Clone, Copy, PartialEq, Eq, Structural, Debug)]
pub enum ControllerType {
    /// Unknown device
    Unknown,
    /// The mouse
    Mouse,
    /// The twist `NegCon` controller
    NegCon,
    /// Konamis Light Gun
    HyperBlaster,
    /// The standard digital controller
    Controller,
    /// The large flight stick controller
    ArcadeFlightStick,
    /// The Namco GCon light gun
    GCon,
    /// The analogue `DualShock`-class controller
    DualShock,
    /// The multi tap fan-out hub
    MultiTap,
    /// No controller present; the bus reads high
    HighZ,
}

impl ControllerType {
    /// The family selected by an identity nibble, for use in contracts.
    pub open spec fn spec_from_nibble(value: u8) -> ControllerType {
        match value {
            0x1 => ControllerType::Mouse,
            0x2 => ControllerType::NegCon,
            0x3 => ControllerType::HyperBlaster,
            0x4 => ControllerType::Controller,
            0x5 => ControllerType::ArcadeFlightStick,
            0x6 => ControllerType::GCon,
            0x7 => ControllerType::DualShock,
            0x8 => ControllerType::MultiTap,
            0xF => ControllerType::HighZ,
            _ => ControllerType::Unknown,
        }
    }

    /// Decodes a device-family nibble.
    pub fn from_nibble(value: u8) -> (r: ControllerType)
        ensures
            r == ControllerType::spec_from_nibble(value),
    {
        match value {
            0x1 => ControllerType::Mouse,
            0x2 => ControllerType::NegCon,
            0x3 => ControllerType::HyperBlaster,
            0x4 => ControllerType::Controller,
            0x5 => ControllerType::ArcadeFlightStick,
            0x6 => ControllerType::GCon,
            0x7 => ControllerType::DualShock,
            0x8 => ControllerType::MultiTap,
            0xF => ControllerType::HighZ,
            _ => ControllerType::Unknown,
        }
    }
}

/// The identity byte reported by a connected controller: a device-family
/// nibble above a mode nibble.
#[derive(Clone, Copy, PartialEq, Eq, Structural, Debug)]
pub struct ControllerID {
    /// The raw identity byte
    pub id: u8,
}

/// The identity byte that acknowledges an ongoing negotiation.
pub const NEGOTIATING_ID: u8 = 0xF3;

impl ControllerID {
    /// Wraps a raw identity byte.
    pub fn from_byte(value: u8) -> (r: ControllerID)
        ensures
            r.id == value,
    {
        ControllerID { id: value }
    }

    /// The family of `self`, for use in contracts.
    pub open spec fn spec_controller_type(self) -> ControllerType {
        ControllerType::spec_from_nibble(self.id >> 4)
    }

    /// Returns the type of the controller
    pub fn controller_type(&self) -> (r: ControllerType)
        ensures
            r == self.spec_controller_type(),
    {
        ControllerType::from_nibble(self.id >> 4)
    }

    /// Checks if the controller reports the negotiation acknowledgment
    /// identity.
    pub fn in_config_mode(&self) -> (r: bool)
        ensures
            r == (self.id == NEGOTIATING_ID),
    {
        self.id == NEGOTIATING_ID
    }
}

/// Mask of the analog-mode flag inside a packed configuration byte.
pub const ANALOG_MODE_BIT: u8 = 0x01;
/// Mask of the lock-mode flag inside a packed configuration byte.
pub const LOCK_MODE_BIT: u8 = 0x02;
/// Mask of the rumble-enable flag inside a packed configuration byte.
pub const ENABLE_RUMBLE_BIT: u8 = 0x04;

/// Possible configurations for the controllers.
///
/// On the wire this is a single byte: bit 0 enables analog mode, bit 1
/// locks the mode button, bit 2 unlocks the rumble motors; the remaining
/// five bits are unused. [`Configuration::into_bits`] and
/// [`Configuration::from_bits`] give that packed form.
#[derive(Clone, Copy, PartialEq, Eq, Structural, Debug)]
pub struct Configuration {
    /// Enables analog mode
    pub analog_mode: bool,
    /// Locks the mode button
    pub lock_mode: bool,
    /// Unlocks the rumble
    pub enable_rumble: bool,
}

impl Configuration {
    /// The power-on default: every flag cleared.
    pub fn new() -> (r: Configuration)
        ensures
            r == Configuration::default_spec(),
    {
        Configuration { analog_mode: false, lock_mode: false, enable_rumble: false }
    }

    /// The power-on default configuration, for use in contracts.
    pub open spec fn default_spec() -> Configuration {
        Configuration { analog_mode: false, lock_mode: false, enable_rumble: false }
    }

    /// Returns a copy with the analog-mode flag set to `value`.
    pub fn with_analog_mode(self, value: bool) -> (r: Configuration)
        ensures
            r == (Configuration { analog_mode: value, ..self }),
    {
        Configuration { analog_mode: value, ..self }
    }

    /// Returns a copy with the lock-mode flag set to `value`.
    pub fn with_lock_mode(self, value: bool) -> (r: Configuration)
        ensures
            r == (Configuration { lock_mode: value, ..self }),
    {
        Configuration { lock_mode: value, ..self }
    }

    /// Returns a copy with the rumble-enable flag set to `value`.
    pub fn with_enable_rumble(self, value: bool) -> (r: Configuration)
        ensures
            r == (Configuration { enable_rumble: value, ..self }),
    {
        Configuration { enable_rumble: value, ..self }
    }

    /// Reads the analog-mode flag.
    pub fn analog_mode(&self) -> (r: bool)
        ensures
            r == self.analog_mode,
    {
        self.analog_mode
    }

    /// Reads the lock-mode flag.
    pub fn lock_mode(&self) -> (r: bool)
        ensures
            r == self.lock_mode,
    {
        self.lock_mode
    }

    /// Reads the rumble-enable flag.
    pub fn enable_rumble(&self) -> (r: bool)
        ensures
            r == self.enable_rumble,
    {
        self.enable_rumble
    }

    /// The packed wire form of `self`, for use in contracts.
    pub open spec fn spec_bits(self) -> u8 {
        (if self.analog_mode { ANALOG_MODE_BIT } else { 0 })
        | (if self.lock_mode { LOCK_MODE_BIT } else { 0 })
        | (if self.enable_rumble { ENABLE_RUMBLE_BIT } else { 0 })
    }

    /// Packs the three flags into their wire byte.
    pub fn into_bits(self) -> (r: u8)
        ensures
            r == self.spec_bits(),
    {
        (if self.analog_mode { ANALOG_MODE_BIT } else { 0 })
        | (if self.lock_mode { LOCK_MODE_BIT } else { 0 })
        | (if self.enable_rumble { ENABLE_RUMBLE_BIT } else { 0 })
    }

    /// Unpacks a wire byte; the five unused bits are ignored.
    pub fn from_bits(bits: u8) -> (r: Configuration)
        ensures
            r.analog_mode == (bits & ANALOG_MODE_BIT != 0),
            r.lock_mode == (bits & LOCK_MODE_BIT != 0),
            r.enable_rumble == (bits & ENABLE_RUMBLE_BIT != 0),
    {
        Configuration {
            analog_mode: bits & ANALOG_MODE_BIT != 0,
            lock_mode: bits & LOCK_MODE_BIT != 0,
            enable_rumble: bits & ENABLE_RUMBLE_BIT != 0,
        }
    }
}

/// Unspecified buttons, named after their position in the two button bytes.
///
/// The first byte received carries `D8` to `D15` in its bits 0 to 7, the
/// second byte carries `D0` to `D7`; after little-endian assembly of the
/// 16-bit mask, `D8` sits at bit 0 and `D7` at bit 15.
#[derive(Clone, Copy, PartialEq, Eq, Structural, Debug)]
pub enum GenericButton {
    D8,
    D9,
    D10,
    D11,
    D12,
    D13,
    D14,
    D15,
    D0,
    D1,
    D2,
    D3,
    D4,
    D5,
    D6,
    D7,
}

impl GenericButton {
    /// The bit position of `self` inside the 16-bit wire mask.
    pub open spec fn spec_bit_index(self) -> u16 {
        match self {
            GenericButton::D8 => 0,
            GenericButton::D9 => 1,
            GenericButton::D10 => 2,
            GenericButton::D11 => 3,
            GenericButton::D12 => 4,
            GenericButton::D13 => 5,
            GenericButton::D14 => 6,
            GenericButton::D15 => 7,
            GenericButton::D0 => 8,
            GenericButton::D1 => 9,
            GenericButton::D2 => 10,
            GenericButton::D3 => 11,
            GenericButton::D4 => 12,
            GenericButton::D5 => 13,
            GenericButton::D6 => 14,
            GenericButton::D7 => 15,
        }
    }

    /// The single-bit mask of `self`, for use in contracts.
    pub open spec fn spec_mask(self) -> u16 {
        match self {
            GenericButton::D8 => 0x0001,
            GenericButton::D9 => 0x0002,
            GenericButton::D10 => 0x0004,
            GenericButton::D11 => 0x0008,
            GenericButton::D12 => 0x0010,
            GenericButton::D13 => 0x0020,
            GenericButton::D14 => 0x0040,
            GenericButton::D15 => 0x0080,
            GenericButton::D0 => 0x0100,
            GenericButton::D1 => 0x0200,
            GenericButton::D2 => 0x0400,
            GenericButton::D3 => 0x0800,
            GenericButton::D4 => 0x1000,
            GenericButton::D5 => 0x2000,
            GenericButton::D6 => 0x4000,
            GenericButton::D7 => 0x8000,
        }
    }

    /// The single-bit mask of `self` inside the 16-bit wire mask.
    pub fn mask(self) -> (r: u16)
        ensures
            r == self.spec_mask(),
    {
        match self {
            GenericButton::D8 => 0x0001,
            GenericButton::D9 => 0x0002,
            GenericButton::D10 => 0x0004,
            GenericButton::D11 => 0x0008,
            GenericButton::D12 => 0x0010,
            GenericButton::D13 => 0x0020,
            GenericButton::D14 => 0x0040,
            GenericButton::D15 => 0x0080,
            GenericButton::D0 => 0x0100,
            GenericButton::D1 => 0x0200,
            GenericButton::D2 => 0x0400,
            GenericButton::D3 => 0x0800,
            GenericButton::D4 => 0x1000,
            GenericButton::D5 => 0x2000,
            GenericButton::D6 => 0x4000,
            GenericButton::D7 => 0x8000,
        }
    }

    /// Combines two buttons into one mask.
    pub fn or(self, rhs: GenericButton) -> (r: CombinedGenericButtons)
        ensures
            r.0 == (self.spec_mask() | rhs.spec_mask()),
    {
        CombinedGenericButtons(self.mask() | rhs.mask())
    }

    /// The mask of `self` equals one shifted to its bit position.
    pub proof fn lemma_mask_is_bit(self)
        ensures
            self.spec_mask() == (1u16 << self.spec_bit_index()),
            self.spec_bit_index() < 16,
    {
        assert(1u16 << 0 == 0x0001 && 1u16 << 1 == 0x0002 && 1u16 << 2 == 0x0004
            && 1u16 << 3 == 0x0008 && 1u16 << 4 == 0x0010 && 1u16 << 5 == 0x0020
            && 1u16 << 6 == 0x0040 && 1u16 << 7 == 0x0080 && 1u16 << 8 == 0x0100
            && 1u16 << 9 == 0x0200 && 1u16 << 10 == 0x0400 && 1u16 << 11 == 0x0800
            && 1u16 << 12 == 0x1000 && 1u16 << 13 == 0x2000 && 1u16 << 14 == 0x4000
            && 1u16 << 15 == 0x8000) by (bit_vector);
    }
}

/// A mask naming several buttons at once.
#[derive(Clone, Copy, PartialEq, Eq, Structural, Debug)]
pub struct CombinedGenericButtons(pub u16);

impl CombinedGenericButtons {
    /// Adds one more button to the mask.
    pub fn or(self, rhs: GenericButton) -> (r: CombinedGenericButtons)
        ensures
            r.0 == (self.0 | rhs.spec_mask()),
    {
        CombinedGenericButtons(self.0 | rhs.mask())
    }
}

/// Raw button states as read from the wire: a cleared bit means the button
/// is pressed (active low).
#[derive(Clone, Copy, PartialEq, Eq, Structural, Debug)]
pub struct RawButtonStates {
    /// The raw states of the buttons
    pub states: u16,
}

impl RawButtonStates {
    /// Creates a new `RawButtonStates` from the raw `states`.
    pub fn new(states: u16) -> (r: RawButtonStates)
        ensures
            r.states == states,
    {
        RawButtonStates { states }
    }

    /// Checks if the specified button is down, inverting the active-low
    /// wire encoding.
    pub fn is_down(&self, button: GenericButton) -> (r: bool)
        ensures
            r == (self.states & button.spec_mask() == 0),
    {
        self.states & button.mask() == 0
    }

    /// Checks if at least one of the specified buttons is down, that is,
    /// if not all of their wire bits are set.
    pub fn are_any_down(&self, buttons: CombinedGenericButtons) -> (r: bool)
        ensures
            r == (self.states & buttons.0 != buttons.0),
    {
        self.states & buttons.0 != buttons.0
    }
}

/// Extra state bytes reported by analog and other extended devices.
#[derive(Clone, Copy, PartialEq, Eq, Structural, Debug)]
pub struct ExtendedValues {
    /// The first extended byte
    pub b0: u8,
    /// The second extended byte
    pub b1: u8,
    /// The third extended byte
    pub b2: u8,
    /// The fourth extended byte
    pub b3: u8,
}

impl ExtendedValues {
    /// All four bytes cleared: the value stored while a device reports no
    /// extended data.
    pub open spec fn spec_zero() -> ExtendedValues {
        ExtendedValues { b0: 0, b1: 0, b2: 0, b3: 0 }
    }

    /// All four bytes cleared.
    pub fn zero() -> (r: ExtendedValues)
        ensures
            r == ExtendedValues::spec_zero(),
    {
        ExtendedValues { b0: 0, b1: 0, b2: 0, b3: 0 }
    }
}

/// Possible protocol states of a connected controller.
#[derive(Clone, Copy, PartialEq, Eq, Structural, Debug)]
pub enum ControllerState {
    /// A freshly identified controller
    New,
    /// Negotiating an operating mode; carries the configuration observed
    /// (or optimistically assumed) on the device so far
    Negotiating(Configuration),
    /// A stable controller, visible to application code
    Stable,
}

/// The identity byte a device reports once analog mode is applied.
pub const ANALOG_PAD_ID: u8 = 0x73;
/// The identity byte a device reports in plain digital mode.
pub const DIGITAL_PAD_ID: u8 = 0x41;

/// One physically present device between discovery and loss of contact.
///
/// The button and extended data are meaningful only while the protocol
/// state is [`ControllerState::Stable`]; they are refreshed on every
/// stable tick.
#[derive(Clone, Copy, PartialEq, Eq, Structural, Debug)]
pub struct RawController {
    /// The identity of the controller
    pub id: ControllerID,
    /// Internal protocol state information
    pub state: ControllerState,
    /// The raw button states
    pub buttons: RawButtonStates,
    /// Extended values used by some controllers
    pub extended: ExtendedValues,
}

impl RawController {
    /// The controller created on first successful identification, for use
    /// in contracts.
    pub open spec fn spec_new(
        id: ControllerID,
        buttons: RawButtonStates,
        extended: Option<ExtendedValues>,
    ) -> RawController {
        RawController {
            id,
            state: ControllerState::New,
            buttons,
            extended: match extended {
                Some(value) => value,
                None => ExtendedValues::spec_zero(),
            },
        }
    }

    /// Creates a new `RawController` in the [`ControllerState::New`] state.
    pub fn new(
        id: ControllerID,
        buttons: RawButtonStates,
        extended: Option<ExtendedValues>,
    ) -> (r: RawController)
        ensures
            r == RawController::spec_new(id, buttons, extended),
    {
        RawController {
            id,
            state: ControllerState::New,
            buttons,
            extended: match extended {
                Some(value) => value,
                None => ExtendedValues::zero(),
            },
        }
    }

    /// The controller after a refresh, for use in contracts: new button and
    /// extended data always apply; a changed identity additionally forces
    /// the protocol state back to [`ControllerState::New`].
    pub open spec fn spec_update(
        self,
        id: ControllerID,
        buttons: RawButtonStates,
        extended: Option<ExtendedValues>,
    ) -> RawController {
        RawController {
            id,
            state: if id == self.id { self.state } else { ControllerState::New },
            buttons,
            extended: match extended {
                Some(value) => value,
                None => ExtendedValues::spec_zero(),
            },
        }
    }

    /// Updates the `RawController` with the latest polled data. If the
    /// identity changed, the device was swapped or reset, so the protocol
    /// state falls back to [`ControllerState::New`].
    pub fn update(
        &mut self,
        id: ControllerID,
        buttons: RawButtonStates,
        extended: Option<ExtendedValues>,
    )
        ensures
            *final(self) == old(self).spec_update(id, buttons, extended),
    {
        if self.id != id {
            self.id = id;
            self.state = ControllerState::New;
        }
        self.buttons = buttons;
        self.extended = match extended {
            Some(value) => value,
            None => ExtendedValues::zero(),
        };
    }

    /// Returns the type of the controller.
    pub fn get_controller_type(&self) -> (r: ControllerType)
        ensures
            r == self.id.spec_controller_type(),
    {
        self.id.controller_type()
    }

    /// Returns the current button state.
    pub fn get_buttons(&self) -> (r: RawButtonStates)
        ensures
            r == self.buttons,
    {
        self.buttons
    }

    /// Returns the internal protocol state of the controller.
    pub fn get_state(&self) -> (r: ControllerState)
        ensures
            r == self.state,
    {
        self.state
    }

    /// The controller after an observed-configuration update, for use in
    /// contracts: meaningful only while negotiating, where the stored
    /// identity is also advanced to the one the device will report once
    /// the mode is applied.
    pub open spec fn spec_set_configuration(self, config: Configuration) -> RawController {
        match self.state {
            ControllerState::Negotiating(_) => RawController {
                id: ControllerID {
                    id: if config.analog_mode { ANALOG_PAD_ID } else { DIGITAL_PAD_ID },
                },
                state: ControllerState::Negotiating(config),
                ..self
            },
            _ => self,
        }
    }

    /// Records `config` as the configuration observed on the device, if
    /// the current state allows it.
    pub fn set_configuration(&mut self, config: Configuration)
        ensures
            *final(self) == old(self).spec_set_configuration(config),
    {
        match self.state {
            ControllerState::New => (),
            ControllerState::Negotiating(_) => {
                self.id = ControllerID::from_byte(
                    if config.analog_mode { ANALOG_PAD_ID } else { DIGITAL_PAD_ID },
                );
                self.state = ControllerState::Negotiating(config);
            },
            ControllerState::Stable => (),
        }
    }

    /// The controller after entering negotiation, for use in contracts:
    /// the observed configuration starts at the power-on default; an
    /// already negotiating controller is left as it is.
    pub open spec fn spec_set_config_mode(self) -> RawController {
        match self.state {
            ControllerState::Negotiating(_) => self,
            _ => RawController {
                state: ControllerState::Negotiating(Configuration::default_spec()),
                ..self
            },
        }
    }

    /// Enters the negotiation state.
    pub fn set_config_mode(&mut self)
        ensures
            *final(self) == old(self).spec_set_config_mode(),
    {
        match self.state {
            ControllerState::New => {
                self.state = ControllerState::Negotiating(Configuration::new());
            },
            ControllerState::Negotiating(_) => (),
            ControllerState::Stable => {
                self.state = ControllerState::Negotiating(Configuration::new());
            },
        }
    }

    /// Marks the controller as stable, making it visible to application
    /// code.
    pub fn set_stable(&mut self)
        ensures
            *final(self) == (RawController { state: ControllerState::Stable, ..*old(self) }),
    {
        self.state = ControllerState::Stable;
    }

    /// Forces the protocol state back to [`ControllerState::New`] so that
    /// negotiation restarts on the next tick.
    pub fn set_reconfigure_mode(&mut self)
        ensures
            *final(self) == (RawController { state: ControllerState::New, ..*old(self) }),
    {
        self.state = ControllerState::New;
    }
}

} // verus!
