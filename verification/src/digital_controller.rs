//! A typed view of a slot as a regular digital controller: the buttons
//! under their common names.

use vstd::prelude::*;

use crate::controller::ControllerError;
use crate::controller::ControllerType;
use crate::controller::GenericButton;
use crate::controller::RawController;
use crate::peripheral::ControllerSlot;

verus! {

/// The regular digital controller, bound to the device a slot showed on
/// the tick it was obtained from.
#[derive(Clone, Copy, PartialEq, Eq, Structural, Debug)]
pub struct DigitalController {
    /// The raw controller data to operate on
    pub raw: RawController,
}

impl DigitalController {
    /// What binding a slot as a digital controller returns: the stable
    /// controller on it, if it is of the standard digital family.
    pub open spec fn spec_from_port(slot: ControllerSlot) -> Result<
        DigitalController,
        ControllerError,
    > {
        match slot.spec_visible() {
            Some(raw) => if raw.id.spec_controller_type() is Controller {
                Ok(DigitalController { raw })
            } else {
                Err(ControllerError::WrongType(raw.id.spec_controller_type()))
            },
            None => Err(ControllerError::NotConnected),
        }
    }

    /// Tries to use the controller on the given port A slot as a digital
    /// controller.
    pub fn from_port_a(slot: &ControllerSlot) -> (r: Result<DigitalController, ControllerError>)
        ensures
            r == DigitalController::spec_from_port(*slot),
    {
        Self::from_port(slot)
    }

    /// Tries to use the controller on the given port B slot as a digital
    /// controller.
    pub fn from_port_b(slot: &ControllerSlot) -> (r: Result<DigitalController, ControllerError>)
        ensures
            r == DigitalController::spec_from_port(*slot),
    {
        Self::from_port(slot)
    }

    /// Checks if the specified `button` is currently pressed.
    pub fn is_button_down(&self, button: DigitalButton) -> (r: bool)
        ensures
            r == (self.raw.buttons.states & button.spec_generic().spec_mask() == 0),
    {
        self.raw.buttons.is_down(button.generic())
    }

    /// Tries to use the controller on a slot as a digital controller: it
    /// must be visible (stable) and of the standard digital family.
    fn from_port(slot: &ControllerSlot) -> (r: Result<DigitalController, ControllerError>)
        ensures
            r == DigitalController::spec_from_port(*slot),
    {
        match slot.stable_controller() {
            Some(raw) => {
                let controller_type = raw.get_controller_type();
                if matches!(controller_type, ControllerType::Controller) {
                    Ok(DigitalController { raw })
                } else {
                    Err(ControllerError::WrongType(controller_type))
                }
            },
            None => Err(ControllerError::NotConnected),
        }
    }
}

/// The default digital button representation
#[derive(Clone, Copy, PartialEq, Eq, Structural, Debug)]
pub enum DigitalButton {
    /// The `select` button on a regular controller
    Select,
    /// The `L3` button - the left analog stick pressed down
    L3,
    /// The `R3` button - the right analog stick pressed down
    R3,
    /// The `start` button on a regular controller
    Start,
    /// The up directional button
    Up,
    /// The right directional button
    Right,
    /// The down directional button
    Down,
    /// The left directional button
    Left,
    /// The `L2` button - the lower left shoulder button
    L2,
    /// The `R2` button - the lower right shoulder button
    R2,
    /// The `L1` button - the upper left shoulder button
    L1,
    /// The `R1` button - the upper right shoulder button
    R1,
    /// The `triangle` button - the up character button
    Triangle,
    /// The `circle` button - the right character button
    Circle,
    /// The `cross` button - the down character button
    Cross,
    /// The `square` button - the left character button
    Square,
}

impl DigitalButton {
    /// The wire position of each named button, for use in contracts.
    pub open spec fn spec_generic(self) -> GenericButton {
        match self {
            DigitalButton::L2 => GenericButton::D0,
            DigitalButton::R2 => GenericButton::D1,
            DigitalButton::L1 => GenericButton::D2,
            DigitalButton::R1 => GenericButton::D3,
            DigitalButton::Triangle => GenericButton::D4,
            DigitalButton::Circle => GenericButton::D5,
            DigitalButton::Cross => GenericButton::D6,
            DigitalButton::Square => GenericButton::D7,
            DigitalButton::Select => GenericButton::D8,
            DigitalButton::L3 => GenericButton::D9,
            DigitalButton::R3 => GenericButton::D10,
            DigitalButton::Start => GenericButton::D11,
            DigitalButton::Up => GenericButton::D12,
            DigitalButton::Right => GenericButton::D13,
            DigitalButton::Down => GenericButton::D14,
            DigitalButton::Left => GenericButton::D15,
        }
    }

    /// Maps the named button onto its wire position.
    pub fn generic(self) -> (r: GenericButton)
        ensures
            r == self.spec_generic(),
    {
        match self {
            DigitalButton::L2 => GenericButton::D0,
            DigitalButton::R2 => GenericButton::D1,
            DigitalButton::L1 => GenericButton::D2,
            DigitalButton::R1 => GenericButton::D3,
            DigitalButton::Triangle => GenericButton::D4,
            DigitalButton::Circle => GenericButton::D5,
            DigitalButton::Cross => GenericButton::D6,
            DigitalButton::Square => GenericButton::D7,
            DigitalButton::Select => GenericButton::D8,
            DigitalButton::L3 => GenericButton::D9,
            DigitalButton::R3 => GenericButton::D10,
            DigitalButton::Start => GenericButton::D11,
            DigitalButton::Up => GenericButton::D12,
            DigitalButton::Right => GenericButton::D13,
            DigitalButton::Down => GenericButton::D14,
            DigitalButton::Left => GenericButton::D15,
        }
    }
}

} // verus!
