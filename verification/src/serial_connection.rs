//! The protocol driver: turns logical controller operations into ordered
//! byte exchanges over the half-duplex serial bus and interprets the
//! responses.
//!
//! The bus itself is hardware; a [`SerialConnection`] models one bus
//! activation as a script of the bytes the attached device will return,
//! the exchange index at which the link first fails, and the levels the
//! acknowledge line will show. The driver's contracts pin down, for every
//! script, exactly which bytes go out, in which order, and what each
//! operation returns — so the state machine above is verified against
//! every possible device behaviour. A hardware loop feeds a real port by
//! constructing the script from register reads.

use vstd::prelude::*;

use crate::controller::ControllerID;
use crate::controller::ExtendedValues;
use crate::controller::RawButtonStates;

verus! {

/// The marker a live device places in the third response byte of every
/// command sequence.
pub const FIXED_CONTROLLER_ID: u8 = 0x5A;
/// The address byte of slot 0; slot `n` is addressed as this plus `n`.
pub const ADDRESS_CONTROLLER_CMD: u8 = 0x01;
/// Command: read the button state (and exchange two motor bytes).
pub const BUTTON_STATE_CMD: u8 = 0x42;
/// Command: enter or leave the vendor negotiation mode.
pub const CONFIG_CMD: u8 = 0x43;
/// Command: set the analog/LED operating mode.
pub const LED_CMD: u8 = 0x44;
/// Payload byte addressing the device directly rather than a fan-out tap.
pub const TAP_CMD: u8 = 0x00;
/// The byte read from the bus when nothing drives it.
pub const HIGH_Z_BYTE: u8 = 0xFF;

/// A failure of one byte exchange. The protocol has no finer distinction:
/// a device that never placed the marker byte and a link that timed out
/// both surface as this single kind.
#[derive(Clone, Copy, PartialEq, Eq, Structural, Debug)]
pub enum SerialConnectionError {
    /// No device answered the exchange
    NoController,
}

/// The byte received by the exchange numbered `i`, under the script
/// `replies`: reads past the end of the script find an undriven bus.
pub open spec fn reply_at(replies: Seq<u8>, i: int) -> u8 {
    if 0 <= i < replies.len() {
        replies[i]
    } else {
        HIGH_Z_BYTE
    }
}

/// The acknowledge-line level seen by the read numbered `i`, under the
/// script `acks`: reads past the end of the script see the idle level.
pub open spec fn ack_at(acks: Seq<bool>, i: int) -> bool {
    if 0 <= i < acks.len() {
        acks[i]
    } else {
        false
    }
}

/// A 16-bit value assembled from two little-endian bytes.
pub open spec fn le16(lo: u8, hi: u8) -> u16 {
    (lo + hi * 0x100) as u16
}

/// The identify handshake for `slot`: address, button-state command, tap
/// selector.
pub open spec fn spec_identify_cmd(slot: u8) -> Seq<u8>
    recommends
        slot < 0xFF,
{
    seq![(ADDRESS_CONTROLLER_CMD + slot) as u8, BUTTON_STATE_CMD, TAP_CMD]
}

/// The negotiation command for `slot` with an enter/leave flag and two
/// padding bytes.
pub open spec fn spec_config_cmd(slot: u8, enter: bool) -> Seq<u8>
    recommends
        slot < 0xFF,
{
    seq![
        (ADDRESS_CONTROLLER_CMD + slot) as u8,
        CONFIG_CMD,
        0x00u8,
        if enter { 0x01u8 } else { 0x00u8 },
        0x00u8,
    ]
}

/// The mode command for `slot` carrying the analog and lock flags.
pub open spec fn spec_mode_cmd(slot: u8, enable_analog: bool, lock_mode: bool) -> Seq<u8>
    recommends
        slot < 0xFF,
{
    seq![
        (ADDRESS_CONTROLLER_CMD + slot) as u8,
        LED_CMD,
        0x00u8,
        if enable_analog { 0x01u8 } else { 0x00u8 },
        if lock_mode { 0x03u8 } else { 0x00u8 },
        0x00u8,
        0x00u8,
        0x00u8,
    ]
}

/// The mathematical model of one bus activation: the transcript so far,
/// the device's script, and the acknowledge-line script.
#[verifier::ext_equal]
pub struct ConnView {
    /// The bytes sent over the wire so far, in order
    pub sent: Seq<u8>,
    /// The bytes the device returns, indexed by exchange number
    pub replies: Seq<u8>,
    /// The exchange number at which the link first fails
    pub fault_at: int,
    /// The levels the acknowledge line shows, in the order they are read
    pub acks: Seq<bool>,
    /// How many acknowledge reads have happened so far
    pub acks_taken: int,
}

impl ConnView {
    /// A connection as it stands right after activation: nothing sent, no
    /// acknowledge read yet.
    pub open spec fn fresh(replies: Seq<u8>, fault_at: int, acks: Seq<bool>) -> ConnView {
        ConnView { sent: Seq::<u8>::empty(), replies, fault_at, acks, acks_taken: 0 }
    }

    /// The number of exchanges performed so far: one byte sent per
    /// exchange.
    pub open spec fn pos(self) -> int {
        self.sent.len() as int
    }

    /// A connection whose exchange counter has not passed the fault
    /// point. Holds of every connection the library hands out.
    pub open spec fn wf(self) -> bool {
        &&& self.pos() <= self.fault_at
        &&& 0 <= self.acks_taken <= self.acks.len()
    }

    /// The next `n` exchanges all complete without a link failure.
    pub open spec fn can_exchange(self, n: int) -> bool {
        self.pos() + n <= self.fault_at
    }

    /// The byte the exchange `i` steps from now will receive.
    pub open spec fn reply(self, i: int) -> u8 {
        reply_at(self.replies, self.pos() + i)
    }

    /// The level the next acknowledge read will see.
    pub open spec fn next_ack(self) -> bool {
        ack_at(self.acks, self.acks_taken)
    }

    /// The connection after attempting to send `cmd`: the transcript grows
    /// by the whole command, or by its prefix up to the fault point.
    pub open spec fn after_send(self, cmd: Seq<u8>) -> ConnView {
        if self.can_exchange(cmd.len() as int) {
            ConnView { sent: self.sent + cmd, ..self }
        } else {
            ConnView { sent: self.sent + cmd.take(self.fault_at - self.pos()), ..self }
        }
    }

    /// The connection after one acknowledge read.
    pub open spec fn after_ack(self) -> ConnView {
        if self.acks_taken < self.acks.len() {
            ConnView { acks_taken: self.acks_taken + 1, ..self }
        } else {
            self
        }
    }

    /// The bytes the next `n` exchanges will receive.
    pub open spec fn replies_for(self, n: int) -> Seq<u8> {
        Seq::new(n as nat, |i: int| self.reply(i))
    }

    /// The identify handshake succeeds: its three exchanges complete and
    /// the third response byte carries the fixed marker.
    pub open spec fn identify_ok(self) -> bool {
        &&& self.can_exchange(3)
        &&& self.reply(2) == FIXED_CONTROLLER_ID
    }

    /// What the identify handshake returns.
    pub open spec fn identify_result(self) -> Result<ControllerID, SerialConnectionError> {
        if self.identify_ok() {
            Ok(ControllerID { id: self.reply(1) })
        } else {
            Err(SerialConnectionError::NoController)
        }
    }

    /// The connection after the identify handshake for `slot`.
    pub open spec fn after_identify(self, slot: u8) -> ConnView {
        self.after_send(spec_identify_cmd(slot))
    }

    /// The connection after a full identify-and-poll operation.
    pub open spec fn after_poll(self, slot: u8, mot1: u8, mot2: u8) -> ConnView {
        let c1 = self.after_identify(slot);
        if !self.identify_ok() {
            c1
        } else {
            let c2 = c1.after_send(seq![mot1, mot2]);
            if !c1.can_exchange(2) {
                c2
            } else {
                let c3 = c2.after_ack();
                if c2.next_ack() {
                    c3.after_send(seq![0x00u8, 0x00u8, 0x00u8, 0x00u8])
                } else {
                    c3
                }
            }
        }
    }

    /// An identify-and-poll operation completes: the handshake succeeds,
    /// the two button exchanges go through, and, where the device
    /// acknowledges, so do the four extended exchanges.
    pub open spec fn poll_ok(self) -> bool {
        &&& self.identify_ok()
        &&& self.can_exchange(5)
        &&& (self.next_ack() ==> self.can_exchange(9))
    }

    /// The identity byte an identify-and-poll operation reports.
    pub open spec fn poll_id(self) -> u8 {
        self.reply(1)
    }

    /// The button mask an identify-and-poll operation reports: the 4th and
    /// 5th response bytes, assembled little-endian.
    pub open spec fn poll_buttons(self) -> u16 {
        le16(self.reply(3), self.reply(4))
    }

    /// The extended bytes an identify-and-poll operation reports, present
    /// exactly when the device acknowledged after the button exchanges.
    pub open spec fn poll_extended(self) -> Option<ExtendedValues> {
        if self.next_ack() {
            Some(
                ExtendedValues {
                    b0: self.reply(5),
                    b1: self.reply(6),
                    b2: self.reply(7),
                    b3: self.reply(8),
                },
            )
        } else {
            None
        }
    }

    /// What an identify-and-poll operation returns.
    pub open spec fn poll_result(self) -> Result<
        (ControllerID, RawButtonStates, Option<ExtendedValues>),
        SerialConnectionError,
    > {
        if self.poll_ok() {
            Ok(
                (
                    ControllerID { id: self.poll_id() },
                    RawButtonStates { states: self.poll_buttons() },
                    self.poll_extended(),
                ),
            )
        } else {
            Err(SerialConnectionError::NoController)
        }
    }

    /// The connection after an enter/leave-negotiation operation.
    pub open spec fn after_enter_config(self, slot: u8, enter: bool) -> ConnView {
        let c1 = self.after_send(spec_config_cmd(slot, enter));
        if !self.can_exchange(5) {
            c1
        } else {
            let c2 = c1.after_ack();
            if c1.next_ack() {
                c2.after_send(seq![0x00u8, 0x00u8, 0x00u8, 0x00u8])
            } else {
                c2
            }
        }
    }

    /// An enter/leave-negotiation operation completes without a link
    /// failure. Absence of an acknowledgment is not a failure.
    pub open spec fn enter_config_ok(self) -> bool {
        &&& self.can_exchange(5)
        &&& (self.next_ack() ==> self.can_exchange(9))
    }

    /// What an enter/leave-negotiation operation returns: whether the
    /// device acknowledged the command.
    pub open spec fn enter_config_result(self) -> Result<bool, SerialConnectionError> {
        if self.enter_config_ok() {
            Ok(self.next_ack())
        } else {
            Err(SerialConnectionError::NoController)
        }
    }

    /// The connection after a set-mode operation.
    pub open spec fn after_set_mode(self, slot: u8, enable_analog: bool, lock_mode: bool) -> ConnView {
        self.after_send(spec_mode_cmd(slot, enable_analog, lock_mode))
    }

    /// A set-mode operation completes without a link failure. The command
    /// is fire-and-forget: there is no completion signal beyond that.
    pub open spec fn set_mode_ok(self) -> bool {
        self.can_exchange(8)
    }

    /// What a set-mode operation returns.
    pub open spec fn set_mode_result(self) -> Result<(), SerialConnectionError> {
        if self.set_mode_ok() {
            Ok(())
        } else {
            Err(SerialConnectionError::NoController)
        }
    }
}

/// One scoped activation of the serial bus for a port, bracketing a whole
/// polling cycle. The scripted fields stand for the device's behaviour
/// during this activation; the transcript records what the driver sent.
pub struct SerialConnection {
    /// The bytes sent over the wire so far, in order
    sent: Vec<u8>,
    /// The bytes the device returns, indexed by exchange number
    replies: Vec<u8>,
    /// The exchange number at which the link first fails
    faulty_from: usize,
    /// The levels the acknowledge line shows, in the order they are read
    acks: Vec<bool>,
    /// How many acknowledge reads have happened so far
    acks_taken: usize,
}

impl View for SerialConnection {
    type V = ConnView;

    closed spec fn view(&self) -> ConnView {
        ConnView {
            sent: self.sent@,
            replies: self.replies@,
            fault_at: self.faulty_from as int,
            acks: self.acks@,
            acks_taken: self.acks_taken as int,
        }
    }
}

impl SerialConnection {
    /// Takes ownership of the bus for one polling cycle, under the given
    /// device script.
    pub fn activate(replies: Vec<u8>, faulty_from: usize, acks: Vec<bool>) -> (r:
        SerialConnection)
        ensures
            r@ == ConnView::fresh(replies@, faulty_from as int, acks@),
            r@.wf(),
    {
        let r = SerialConnection { sent: Vec::new(), replies, faulty_from, acks, acks_taken: 0 };
        proof {
            assert(r@ =~= ConnView::fresh(r.replies@, r.faulty_from as int, r.acks@));
        }
        r
    }

    /// Releases the bus and yields the transcript of the cycle.
    pub fn deactivate(self) -> (transcript: Vec<u8>)
        ensures
            transcript@ == self@.sent,
    {
        self.sent
    }

    /// Performs one synchronous exchange: sends `byte`, returns the byte
    /// received, or the failure if the link is past its fault point.
    fn exchange_byte(&mut self, byte: u8) -> (r: Result<u8, SerialConnectionError>)
        requires
            old(self)@.wf(),
        ensures
            final(self)@ == old(self)@.after_send(seq![byte]),
            final(self)@.wf(),
            r == (if old(self)@.can_exchange(1) {
                Ok::<u8, SerialConnectionError>(old(self)@.reply(0))
            } else {
                Err::<u8, SerialConnectionError>(SerialConnectionError::NoController)
            }),
    {
        if self.sent.len() < self.faulty_from {
            let received: u8 = if self.sent.len() < self.replies.len() {
                self.replies[self.sent.len()]
            } else {
                HIGH_Z_BYTE
            };
            self.sent.push(byte);
            proof {
                assert(self@.sent =~= old(self)@.sent + seq![byte]);
                assert(self@ =~= old(self)@.after_send(seq![byte]));
            }
            Ok(received)
        } else {
            proof {
                assert(old(self)@.fault_at - old(self)@.pos() == 0);
                assert(self@.sent =~= old(self)@.sent + seq![byte].take(0));
                assert(self@ =~= old(self)@.after_send(seq![byte]));
            }
            Err(SerialConnectionError::NoController)
        }
    }

    /// Sends the bytes of `cmd` strictly in order, one exchange each, and
    /// collects the bytes received; stops at the first failed exchange.
    fn send_cmd_seq(&mut self, cmd: &Vec<u8>) -> (r: Result<Vec<u8>, SerialConnectionError>)
        requires
            old(self)@.wf(),
        ensures
            final(self)@ == old(self)@.after_send(cmd@),
            final(self)@.wf(),
            old(self)@.can_exchange(cmd@.len() as int) <==> r is Ok,
            r matches Ok(received) ==> received@ == old(self)@.replies_for(cmd@.len() as int),
            r matches Err(e) ==> e == SerialConnectionError::NoController,
    {
        let mut received: Vec<u8> = Vec::new();
        let mut idx: usize = 0;
        proof {
            assert(self@ =~= old(self)@.after_send(cmd@.take(0)));
            assert(received@ =~= old(self)@.replies_for(0));
        }
        while idx < cmd.len()
            invariant
                old(self)@.wf(),
                idx <= cmd@.len(),
                self@ == old(self)@.after_send(cmd@.take(idx as int)),
                old(self)@.can_exchange(idx as int),
                received@ == old(self)@.replies_for(idx as int),
            decreases cmd@.len() - idx,
        {
            assert(cmd@.take(idx as int).len() == idx as int);
            match self.exchange_byte(cmd[idx]) {
                Ok(byte) => {
                    received.push(byte);
                    idx += 1;
                    proof {
                        assert(self@.sent =~= old(self)@.sent + cmd@.take(idx as int));
                        assert(self@ =~= old(self)@.after_send(cmd@.take(idx as int)));
                        assert(received@ =~= old(self)@.replies_for(idx as int));
                    }
                },
                Err(e) => {
                    proof {
                        assert(self@.sent =~= old(self)@.sent + cmd@.take(
                            old(self)@.fault_at - old(self)@.pos(),
                        ));
                        assert(self@ =~= old(self)@.after_send(cmd@));
                    }
                    return Err(e);
                },
            }
        }
        proof {
            assert(cmd@.take(cmd@.len() as int) =~= cmd@);
            assert(self@ =~= old(self)@.after_send(cmd@));
        }
        Ok(received)
    }

    /// Issues the opening identify handshake for `slot` and validates the
    /// fixed marker byte in the third response position.
    fn identify_controller(&mut self, slot: u8) -> (r: Result<ControllerID, SerialConnectionError>)
        requires
            old(self)@.wf(),
            slot < 0xFF,
        ensures
            final(self)@ == old(self)@.after_identify(slot),
            final(self)@.wf(),
            r == old(self)@.identify_result(),
    {
        let cmd: Vec<u8> = vec![ADDRESS_CONTROLLER_CMD + slot, BUTTON_STATE_CMD, TAP_CMD];
        proof {
            assert(cmd@ =~= spec_identify_cmd(slot));
        }
        match self.send_cmd_seq(&cmd) {
            Ok(result) => {
                let id_byte = result[1];
                let fixed_byte = result[2];
                if fixed_byte == FIXED_CONTROLLER_ID {
                    Ok(ControllerID::from_byte(id_byte))
                } else {
                    Err(SerialConnectionError::NoController)
                }
            },
            Err(e) => Err(e),
        }
    }

    /// Identifies the device on `slot` and polls its button state, handing
    /// the two motor bytes along; a device that acknowledges after the
    /// button bytes supplies four further extended bytes.
    pub fn get_controller_state_form_slot(&mut self, slot: u8, mot1: u8, mot2: u8) -> (r: Result<
        (ControllerID, RawButtonStates, Option<ExtendedValues>),
        SerialConnectionError,
    >)
        requires
            old(self)@.wf(),
            slot < 0xFF,
        ensures
            final(self)@ == old(self)@.after_poll(slot, mot1, mot2),
            final(self)@.wf(),
            r == old(self)@.poll_result(),
    {
        let id = match self.identify_controller(slot) {
            Ok(id) => id,
            Err(e) => {
                return Err(e);
            },
        };
        let motor_cmd: Vec<u8> = vec![mot1, mot2];
        proof {
            assert(motor_cmd@ =~= seq![mot1, mot2]);
        }
        let button_bytes = match self.send_cmd_seq(&motor_cmd) {
            Ok(bytes) => bytes,
            Err(e) => {
                return Err(e);
            },
        };
        let states: u16 = button_bytes[0] as u16 + (button_bytes[1] as u16) * 0x100;
        let buttons = RawButtonStates::new(states);
        if self.acknowledge() {
            let pad_cmd: Vec<u8> = vec![0x00u8, 0x00, 0x00, 0x00];
            proof {
                assert(pad_cmd@ =~= seq![0x00u8, 0x00u8, 0x00u8, 0x00u8]);
            }
            match self.send_cmd_seq(&pad_cmd) {
                Ok(ext) => Ok(
                    (
                        id,
                        buttons,
                        Some(ExtendedValues { b0: ext[0], b1: ext[1], b2: ext[2], b3: ext[3] }),
                    ),
                ),
                Err(e) => Err(e),
            }
        } else {
            Ok((id, buttons, None))
        }
    }

    /// Issues the vendor negotiation command for `slot` with an
    /// enter/leave flag. The returned flag says whether the device
    /// acknowledged: devices that cannot negotiate silently ignore the
    /// command, which is not an error.
    pub fn enter_config_mode(&mut self, slot: u8, enter_config_mode: bool) -> (r: Result<
        bool,
        SerialConnectionError,
    >)
        requires
            old(self)@.wf(),
            slot < 0xFF,
        ensures
            final(self)@ == old(self)@.after_enter_config(slot, enter_config_mode),
            final(self)@.wf(),
            r == old(self)@.enter_config_result(),
    {
        let cmd: Vec<u8> = vec![
            ADDRESS_CONTROLLER_CMD + slot,
            CONFIG_CMD,
            0x00,
            if enter_config_mode {
                0x01
            } else {
                0x00
            },
            0x00,
        ];
        proof {
            assert(cmd@ =~= spec_config_cmd(slot, enter_config_mode));
        }
        match self.send_cmd_seq(&cmd) {
            Ok(_) => (),
            Err(e) => {
                return Err(e);
            },
        }
        let acked = self.acknowledge();
        if acked {
            let pad_cmd: Vec<u8> = vec![0x00u8, 0x00, 0x00, 0x00];
            proof {
                assert(pad_cmd@ =~= seq![0x00u8, 0x00u8, 0x00u8, 0x00u8]);
            }
            match self.send_cmd_seq(&pad_cmd) {
                Ok(_) => (),
                Err(e) => {
                    return Err(e);
                },
            }
        }
        Ok(acked)
    }

    /// Issues the vendor mode command for `slot` with the requested analog
    /// and lock flags. Fire and forget: the device sends no completion
    /// signal.
    pub fn set_analog_mode(&mut self, slot: u8, enable_analog: bool, lock_mode: bool) -> (r:
        Result<(), SerialConnectionError>)
        requires
            old(self)@.wf(),
            slot < 0xFF,
        ensures
            final(self)@ == old(self)@.after_set_mode(slot, enable_analog, lock_mode),
            final(self)@.wf(),
            r == old(self)@.set_mode_result(),
    {
        let cmd: Vec<u8> = vec![
            ADDRESS_CONTROLLER_CMD + slot,
            LED_CMD,
            0x00,
            if enable_analog {
                0x01
            } else {
                0x00
            },
            if lock_mode {
                0x03
            } else {
                0x00
            },
            0x00,
            0x00,
            0x00,
        ];
        proof {
            assert(cmd@ =~= spec_mode_cmd(slot, enable_analog, lock_mode));
        }
        match self.send_cmd_seq(&cmd) {
            Ok(_) => Ok(()),
            Err(e) => Err(e),
        }
    }

    /// Reads the acknowledge line: `true` when the device pulled it low
    /// in answer to the previous command.
    fn acknowledge(&mut self) -> (r: bool)
        requires
            old(self)@.wf(),
        ensures
            final(self)@ == old(self)@.after_ack(),
            final(self)@.wf(),
            r == old(self)@.next_ack(),
    {
        if self.acks_taken < self.acks.len() {
            let level = self.acks[self.acks_taken];
            self.acks_taken += 1;
            level
        } else {
            false
        }
    }
}

} // verus!
