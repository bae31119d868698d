//! The per-slot state machine and the polling cycle.
//!
//! Each slot advances one controller's discovery/negotiation/poll
//! lifecycle by exactly one step per tick. The lifecycle runs absent,
//! newly identified, negotiating, stable; a failed exchange in any state
//! drops the controller back to absent, and an identity change while
//! stable forces it back to newly identified.
//!
//! [`spec_step_result`] and [`spec_step_conn`] are the mathematical model
//! of one tick of one slot; every executable function here is proved to
//! follow them, and the laws module derives the multi-tick guarantees
//! from the same two functions.

use vstd::prelude::*;

use crate::controller::Configuration;
use crate::controller::ControllerState;
use crate::controller::RawButtonStates;
use crate::controller::RawController;
use crate::controller::ControllerID;
use crate::serial_connection::ConnView;
use crate::serial_connection::SerialConnection;
use crate::serial_connection::SerialConnectionError;

verus! {

/// A controller slot: one addressable device position on a port. It
/// carries the optional controller seen there and the configuration the
/// application has requested for it.
#[derive(Clone, Copy, PartialEq, Eq, Structural, Debug)]
pub struct ControllerSlot {
    /// The controller on the slot, if one has been identified. Application
    /// code should read it through [`ControllerSlot::stable_controller`],
    /// which hides transitional states.
    pub controller: Option<RawController>,
    /// The requested configuration of the slot; `None` leaves an attached
    /// device in its power-on default mode.
    pub configuration: Option<Configuration>,
}

impl ControllerSlot {
    /// Creates a disconnected slot. By default a slot asks its device for
    /// analog mode with the mode button locked.
    pub fn new() -> (r: ControllerSlot)
        ensures
            r.controller is None,
            r.configuration == Some(
                Configuration { analog_mode: true, lock_mode: true, enable_rumble: false },
            ),
    {
        ControllerSlot {
            controller: None,
            configuration: Some(Configuration::new().with_analog_mode(true).with_lock_mode(true)),
        }
    }

    /// The controller application code may observe: present exactly when
    /// the protocol state is stable, so that transitional or stale data
    /// never shows.
    pub open spec fn spec_visible(self) -> Option<RawController> {
        match self.controller {
            Some(c) => if c.state is Stable {
                Some(c)
            } else {
                None
            },
            None => None,
        }
    }

    /// Returns the controller on this slot, or `None` while it is absent
    /// or in any transitional protocol state.
    pub fn stable_controller(&self) -> (r: Option<RawController>)
        ensures
            r == self.spec_visible(),
    {
        match &self.controller {
            Some(c) => {
                if matches!(c.get_state(), ControllerState::Stable) {
                    Some(*c)
                } else {
                    None
                }
            },
            None => None,
        }
    }

    /// Requests a specific `configuration` for the controller slot.
    ///
    /// An attached controller is forced back to the newly-identified state
    /// so that negotiation restarts on the next tick; until it is stable
    /// again it reports as absent. There is no feedback or guarantee that
    /// the configuration is applied. The caller must bracket this call
    /// with the platform's critical section, since it races with the
    /// interrupt-driven tick.
    pub fn request_configuration(&mut self, configuration: Option<Configuration>)
        ensures
            final(self).configuration == configuration,
            final(self).controller == (match old(self).controller {
                Some(c) => Some(RawController { state: ControllerState::New, ..c }),
                None => None::<RawController>,
            }),
    {
        match &mut self.controller {
            Some(controller) => {
                controller.set_reconfigure_mode();
            },
            None => (),
        }
        self.configuration = configuration;
    }
}

/// A negotiating controller with nothing left to correct settles: it
/// leaves negotiation and becomes stable, unless the leave command hits a
/// link failure.
pub open spec fn spec_leave_negotiation(ctrl: RawController, conn: ConnView) -> Option<
    RawController,
> {
    if conn.enter_config_ok() {
        Some(RawController { state: ControllerState::Stable, ..ctrl })
    } else {
        None
    }
}

/// The controller on a slot after one tick, given the bus behaviour
/// `conn` scripts: the transition table of the state machine.
pub open spec fn spec_step_result(
    c: Option<RawController>,
    cfg: Option<Configuration>,
    conn: ConnView,
    slot: u8,
) -> Option<RawController> {
    match c {
        None => if conn.poll_ok() {
            Some(
                RawController::spec_new(
                    ControllerID { id: conn.poll_id() },
                    RawButtonStates { states: conn.poll_buttons() },
                    conn.poll_extended(),
                ),
            )
        } else {
            None
        },
        Some(ctrl) => match ctrl.state {
            ControllerState::New => {
                if cfg is Some {
                    if !conn.enter_config_ok() {
                        None
                    } else if conn.next_ack() {
                        Some(ctrl.spec_set_config_mode())
                    } else {
                        Some(RawController { state: ControllerState::Stable, ..ctrl })
                    }
                } else {
                    Some(RawController { state: ControllerState::Stable, ..ctrl })
                }
            },
            ControllerState::Negotiating(current) => match cfg {
                Some(requested) => if current.analog_mode != requested.analog_mode
                    || current.lock_mode != requested.lock_mode {
                    if conn.set_mode_ok() {
                        Some(
                            ctrl.spec_set_configuration(
                                Configuration {
                                    analog_mode: requested.analog_mode,
                                    lock_mode: requested.lock_mode,
                                    ..current
                                },
                            ),
                        )
                    } else {
                        None
                    }
                } else {
                    spec_leave_negotiation(ctrl, conn)
                },
                None => spec_leave_negotiation(ctrl, conn),
            },
            ControllerState::Stable => {
                if conn.poll_ok() {
                    Some(
                        ctrl.spec_update(
                            ControllerID { id: conn.poll_id() },
                            RawButtonStates { states: conn.poll_buttons() },
                            conn.poll_extended(),
                        ),
                    )
                } else {
                    None
                }
            },
        },
    }
}

/// The bus after one tick of one slot: which exchanges the tick performs
/// depends only on the slot's state and requested configuration.
pub open spec fn spec_step_conn(
    c: Option<RawController>,
    cfg: Option<Configuration>,
    conn: ConnView,
    slot: u8,
) -> ConnView {
    match c {
        None => conn.after_poll(slot, 0, 0),
        Some(ctrl) => match ctrl.state {
            ControllerState::New => {
                if cfg is Some {
                    conn.after_enter_config(slot, true)
                } else {
                    conn
                }
            },
            ControllerState::Negotiating(current) => match cfg {
                Some(requested) => if current.analog_mode != requested.analog_mode
                    || current.lock_mode != requested.lock_mode {
                    conn.after_set_mode(slot, requested.analog_mode, requested.lock_mode)
                } else {
                    conn.after_enter_config(slot, false)
                },
                None => conn.after_enter_config(slot, false),
            },
            ControllerState::Stable => conn.after_poll(slot, 0, 0),
        },
    }
}

/// Processes an existing `controller` on `slot` against the requested
/// `configuration`: one step of the state machine for a slot that already
/// holds a controller. On a failed exchange it returns the failure and
/// leaves the controller untouched; the caller then drops it.
pub fn process_existing_controller(
    serial_connection: &mut SerialConnection,
    controller: &mut RawController,
    configuration: &Option<Configuration>,
    slot: u8,
) -> (r: Result<(), SerialConnectionError>)
    requires
        old(serial_connection)@.wf(),
        slot < 0xFF,
    ensures
        final(serial_connection)@ == spec_step_conn(
            Some(*old(controller)),
            *configuration,
            old(serial_connection)@,
            slot,
        ),
        final(serial_connection)@.wf(),
        (match spec_step_result(
            Some(*old(controller)),
            *configuration,
            old(serial_connection)@,
            slot,
        ) {
            Some(c) => r is Ok && *final(controller) == c,
            None => r is Err && *final(controller) == *old(controller),
        }),
{
    match controller.get_state() {
        ControllerState::New => {
            if configuration.is_some() {
                match serial_connection.enter_config_mode(slot, true) {
                    Ok(true) => {
                        controller.set_config_mode();
                        return Ok(());
                    },
                    Ok(false) => {
                        // No acknowledgment: the device cannot negotiate
                        // and is ready to be used as it is.
                    },
                    Err(e) => {
                        return Err(e);
                    },
                }
            }
            controller.set_stable();
            Ok(())
        },
        ControllerState::Negotiating(current_config) => {
            if let Some(requested_config) = configuration {
                if current_config.analog_mode() != requested_config.analog_mode()
                    || current_config.lock_mode() != requested_config.lock_mode() {
                    match serial_connection.set_analog_mode(
                        slot,
                        requested_config.analog_mode(),
                        requested_config.lock_mode(),
                    ) {
                        Ok(_) => (),
                        Err(e) => {
                            return Err(e);
                        },
                    }
                    // The wire protocol gives no applied signal, so record
                    // the requested bits as observed and re-check on the
                    // next tick.
                    controller.set_configuration(
                        current_config.with_analog_mode(requested_config.analog_mode())
                            .with_lock_mode(requested_config.lock_mode()),
                    );
                    return Ok(());
                }
            }
            // Nothing left to correct: leave negotiation and settle.
            match serial_connection.enter_config_mode(slot, false) {
                Ok(_) => (),
                Err(e) => {
                    return Err(e);
                },
            }
            controller.set_stable();
            Ok(())
        },
        ControllerState::Stable => {
            match serial_connection.get_controller_state_form_slot(slot, 0, 0) {
                Ok((id, button_state, special)) => {
                    controller.update(id, button_state, special);
                    Ok(())
                },
                Err(e) => Err(e),
            }
        },
    }
}

/// Processes a single controller slot for one tick: discovers a device on
/// an empty slot, advances an occupied one, and drops the controller on
/// any failed exchange.
pub fn process_controller(
    serial_connection: &mut SerialConnection,
    controller: &mut Option<RawController>,
    configuration: &Option<Configuration>,
    slot: u8,
)
    requires
        old(serial_connection)@.wf(),
        slot < 0xFF,
    ensures
        final(serial_connection)@ == spec_step_conn(
            *old(controller),
            *configuration,
            old(serial_connection)@,
            slot,
        ),
        final(serial_connection)@.wf(),
        *final(controller) == spec_step_result(
            *old(controller),
            *configuration,
            old(serial_connection)@,
            slot,
        ),
{
    match controller {
        Some(existing_controller) => {
            // An existing controller needs to be state checked
            if process_existing_controller(
                serial_connection,
                existing_controller,
                configuration,
                slot,
            ).is_err() {
                *controller = None;
            }
        },
        None => {
            // There was no controller before, so it can only be new
            match serial_connection.get_controller_state_form_slot(slot, 0, 0) {
                Ok((id, button_state, special)) => {
                    *controller = Some(RawController::new(id, button_state, special));
                },
                Err(_) => {
                    *controller = None;
                },
            }
        },
    }
}

/// The bus after the slots with index below `i` took their tick, peeled
/// from the last slot processed.
pub open spec fn spec_conn_before(slots: Seq<ControllerSlot>, conn: ConnView, i: int) -> ConnView
    decreases i,
{
    if i <= 0 {
        conn
    } else {
        spec_step_conn(
            slots[i - 1].controller,
            slots[i - 1].configuration,
            spec_conn_before(slots, conn, i - 1),
            (i - 1) as u8,
        )
    }
}

/// One slot after its tick under the bus state `conn`: the controller
/// steps, the requested configuration stays.
pub open spec fn spec_cycle_slot(s: ControllerSlot, conn: ConnView, slot: u8) -> ControllerSlot {
    ControllerSlot { controller: spec_step_result(s.controller, s.configuration, conn, slot), ..s }
}

/// Processes a controller port: steps every slot on it once, in index
/// order, over the one shared bus activation.
pub fn process_port(serial_connection: &mut SerialConnection, port_slots: &mut Vec<ControllerSlot>)
    requires
        old(serial_connection)@.wf(),
        old(port_slots)@.len() <= 0xFF,
    ensures
        final(port_slots)@.len() == old(port_slots)@.len(),
        forall|i: int|
            0 <= i < old(port_slots)@.len() ==> #[trigger] final(port_slots)@[i]
                == spec_cycle_slot(
                old(port_slots)@[i],
                spec_conn_before(old(port_slots)@, old(serial_connection)@, i),
                i as u8,
            ),
        final(serial_connection)@ == spec_conn_before(
            old(port_slots)@,
            old(serial_connection)@,
            old(port_slots)@.len() as int,
        ),
        final(serial_connection)@.wf(),
{
    let mut idx: usize = 0;
    while idx < port_slots.len()
        invariant
            port_slots@.len() == old(port_slots)@.len(),
            port_slots@.len() <= 0xFF,
            idx <= port_slots@.len(),
            forall|i: int|
                idx <= i < port_slots@.len() ==> #[trigger] port_slots@[i] == old(port_slots)@[i],
            forall|i: int|
                0 <= i < idx ==> #[trigger] port_slots@[i] == spec_cycle_slot(
                    old(port_slots)@[i],
                    spec_conn_before(old(port_slots)@, old(serial_connection)@, i),
                    i as u8,
                ),
            serial_connection@ == spec_conn_before(
                old(port_slots)@,
                old(serial_connection)@,
                idx as int,
            ),
            serial_connection@.wf(),
        decreases port_slots@.len() - idx,
    {
        let mut ctrl: Option<RawController> = port_slots[idx].controller;
        let cfg: Option<Configuration> = port_slots[idx].configuration;
        process_controller(serial_connection, &mut ctrl, &cfg, idx as u8);
        port_slots[idx] = ControllerSlot { controller: ctrl, configuration: cfg };
        idx += 1;
    }
}

/// One polling cycle of a port: takes the bus, steps every slot once, and
/// releases the bus, yielding the transcript of the bytes sent. The
/// `replies`, `faulty_from` and `acks` script is the device behaviour the
/// hardware shows during this cycle.
pub fn update_controller(
    port_slots: &mut Vec<ControllerSlot>,
    replies: Vec<u8>,
    faulty_from: usize,
    acks: Vec<bool>,
) -> (transcript: Vec<u8>)
    requires
        old(port_slots)@.len() <= 0xFF,
    ensures
        final(port_slots)@.len() == old(port_slots)@.len(),
        forall|i: int|
            0 <= i < old(port_slots)@.len() ==> #[trigger] final(port_slots)@[i]
                == spec_cycle_slot(
                old(port_slots)@[i],
                spec_conn_before(
                    old(port_slots)@,
                    ConnView::fresh(replies@, faulty_from as int, acks@),
                    i,
                ),
                i as u8,
            ),
        transcript@ == spec_conn_before(
            old(port_slots)@,
            ConnView::fresh(replies@, faulty_from as int, acks@),
            old(port_slots)@.len() as int,
        ).sent,
{
    let mut serial_connection = SerialConnection::activate(replies, faulty_from, acks);
    process_port(&mut serial_connection, port_slots);
    serial_connection.deactivate()
}

} // verus!
