//! The guarantees the state machine gives, stated and proved over the
//! spec-level tick model of the peripheral module.
//!
//! Each law quantifies over the scripted bus behaviour of the ticks it
//! speaks about, so it holds for every device that behaves as its
//! premises say, whatever else the device answers.

use vstd::prelude::*;

use crate::controller::Configuration;
use crate::controller::ControllerState;
use crate::controller::ExtendedValues;
use crate::controller::GenericButton;
use crate::controller::RawController;
use crate::peripheral::spec_step_conn;
use crate::peripheral::spec_step_result;
use crate::peripheral::ControllerSlot;
use crate::serial_connection::spec_identify_cmd;
use crate::serial_connection::ConnView;

verus! {

/// A controller is visible to application code if and only if its
/// protocol state is stable; what is visible is exactly the stored
/// controller.
pub proof fn lemma_visibility_iff_stable(slot: ControllerSlot)
    ensures
        slot.spec_visible() is Some <==> (slot.controller matches Some(c) && c.state
            is Stable),
        slot.spec_visible() matches Some(c) ==> slot.controller == Some(c),
{
}

/// A newly detected device that never acknowledges negotiation becomes
/// stable one tick after the tick of its first detection, whether or not
/// a configuration is requested — and not earlier: after the detection
/// tick it is still hidden.
pub proof fn lemma_no_ack_device_stabilizes(
    cfg: Option<Configuration>,
    conn1: ConnView,
    conn2: ConnView,
    slot: u8,
)
    requires
        conn1.wf(),
        conn1.poll_ok(),
        conn2.wf(),
        conn2.can_exchange(9),
        !conn2.next_ack(),
    ensures
        ({
            let c1 = spec_step_result(None, cfg, conn1, slot);
            let c2 = spec_step_result(c1, cfg, conn2, slot);
            &&& c1 matches Some(detected) && detected.state is New
            &&& ControllerSlot { controller: c1, configuration: cfg }.spec_visible() is None
            &&& c2 matches Some(settled) && settled.state is Stable
        }),
{
}

/// A device that acknowledges negotiation and whose observed
/// configuration already matches the request becomes stable exactly two
/// ticks after the tick of its first detection: one tick to enter
/// negotiation, one to confirm and leave it. After entering, the observed
/// configuration is the power-on default, which is what the request must
/// already match.
pub proof fn lemma_matching_request_stabilizes_in_two(
    req: Configuration,
    conn1: ConnView,
    conn2: ConnView,
    conn3: ConnView,
    slot: u8,
)
    requires
        !req.analog_mode,
        !req.lock_mode,
        conn1.wf(),
        conn1.poll_ok(),
        conn2.wf(),
        conn2.can_exchange(9),
        conn2.next_ack(),
        conn3.wf(),
        conn3.can_exchange(9),
    ensures
        ({
            let cfg = Some(req);
            let c1 = spec_step_result(None, cfg, conn1, slot);
            let c2 = spec_step_result(c1, cfg, conn2, slot);
            let c3 = spec_step_result(c2, cfg, conn3, slot);
            &&& c1 matches Some(detected) && detected.state is New
            &&& c2 matches Some(negotiating) && negotiating.state == ControllerState::Negotiating(
                Configuration::default_spec(),
            )
            &&& c3 matches Some(settled) && settled.state is Stable
        }),
{
}

/// A negotiating device whose observed configuration differs from the
/// request stays negotiating for one extra tick while the correction is
/// sent, the observed analog and lock bits optimistically set to the
/// requested ones; once observed equals requested, the following tick
/// settles.
pub proof fn lemma_mismatch_corrects_then_settles(
    ctrl: RawController,
    observed: Configuration,
    req: Configuration,
    conn1: ConnView,
    conn2: ConnView,
    slot: u8,
)
    requires
        ctrl.state == ControllerState::Negotiating(observed),
        observed.analog_mode != req.analog_mode || observed.lock_mode != req.lock_mode,
        conn1.wf(),
        conn1.set_mode_ok(),
        conn2.wf(),
        conn2.can_exchange(9),
    ensures
        ({
            let cfg = Some(req);
            let c1 = spec_step_result(Some(ctrl), cfg, conn1, slot);
            let c2 = spec_step_result(c1, cfg, conn2, slot);
            &&& c1 matches Some(correcting) && correcting.state matches ControllerState::Negotiating(now_observed)
                && now_observed.analog_mode == req.analog_mode && now_observed.lock_mode
                == req.lock_mode
            &&& c2 matches Some(settled) && settled.state is Stable
        }),
{
}

/// If the identity reported by a poll differs from the stored one while
/// the controller is stable, the very next tick resets the protocol state
/// to newly-identified and replaces the button and extended data with the
/// fresh poll's.
pub proof fn lemma_identity_change_resets(
    ctrl: RawController,
    cfg: Option<Configuration>,
    conn: ConnView,
    slot: u8,
)
    requires
        ctrl.state is Stable,
        conn.wf(),
        conn.poll_ok(),
        conn.poll_id() != ctrl.id.id,
    ensures
        spec_step_result(Some(ctrl), cfg, conn, slot) matches Some(reset)
            && reset.state is New
            && reset.id.id == conn.poll_id()
            && reset.buttons.states == conn.poll_buttons()
            && reset.extended == (match conn.poll_extended() {
                Some(e) => e,
                None => ExtendedValues::spec_zero(),
            }),
{
}

/// The exchanges one tick of a slot performs do not complete as valid
/// exchanges: the premise of the reset-to-absent law.
pub open spec fn spec_tick_failed(
    c: Option<RawController>,
    cfg: Option<Configuration>,
    conn: ConnView,
) -> bool {
    match c {
        None => !conn.poll_ok(),
        Some(ctrl) => match ctrl.state {
            ControllerState::New => cfg is Some && !conn.enter_config_ok(),
            ControllerState::Negotiating(observed) => match cfg {
                Some(requested) => if observed.analog_mode != requested.analog_mode
                    || observed.lock_mode != requested.lock_mode {
                    !conn.set_mode_ok()
                } else {
                    !conn.enter_config_ok()
                },
                None => !conn.enter_config_ok(),
            },
            ControllerState::Stable => !conn.poll_ok(),
        },
    }
}

/// A failed exchange in any state leaves the slot absent on that tick.
pub proof fn lemma_failure_resets_to_absent(
    c: Option<RawController>,
    cfg: Option<Configuration>,
    conn: ConnView,
    slot: u8,
)
    requires
        conn.wf(),
        spec_tick_failed(c, cfg, conn),
    ensures
        spec_step_result(c, cfg, conn, slot) is None,
{
}

/// The tick after a reset attempts fresh identification: on an absent
/// slot, the bytes a tick sends open with the identify handshake.
pub proof fn lemma_absent_attempts_identification(
    cfg: Option<Configuration>,
    conn: ConnView,
    slot: u8,
)
    requires
        conn.wf(),
        conn.sent.len() == 0,
        conn.can_exchange(3),
    ensures
        spec_step_conn(None, cfg, conn, slot).sent.len() >= 3,
        spec_step_conn(None, cfg, conn, slot).sent.take(3) == spec_identify_cmd(slot),
{
    let c1 = conn.after_identify(slot);
    assert(c1.sent =~= spec_identify_cmd(slot));
    if conn.identify_ok() {
        let c2 = c1.after_send(seq![0u8, 0u8]);
        assert(c2.sent.take(3) =~= spec_identify_cmd(slot));
        let c3 = c2.after_ack();
        if c2.next_ack() {
            let c4 = c3.after_send(seq![0x00u8, 0x00u8, 0x00u8, 0x00u8]);
            assert(c4.sent.take(3) =~= spec_identify_cmd(slot));
        }
    }
}

/// The button query answers from the wire bit alone: a button reads as
/// pressed exactly when its bit in the active-low mask is zero.
pub proof fn lemma_button_query_reads_wire_bit(states: u16, button: GenericButton)
    ensures
        (states & button.spec_mask() == 0) <==> ((states >> button.spec_bit_index()) & 1 == 0),
{
    button.lemma_mask_is_bit();
    let i: u16 = button.spec_bit_index();
    assert((states & (1u16 << i) == 0) <==> ((states >> i) & 1 == 0)) by (bit_vector)
        requires
            i < 16,
    ;
}

/// A sequence of ticks, each under its own bus activation.
pub open spec fn spec_run_ticks(
    c: Option<RawController>,
    cfg: Option<Configuration>,
    conns: Seq<ConnView>,
    slot: u8,
) -> Option<RawController>
    decreases conns.len(),
{
    if conns.len() == 0 {
        c
    } else {
        spec_run_ticks(spec_step_result(c, cfg, conns[0], slot), cfg, conns.drop_first(), slot)
    }
}

/// End to end: requesting analog mode with the mode button locked on a
/// device that acknowledges negotiation converges in three ticks — enter
/// negotiation, correct the observed configuration to the request, leave
/// negotiation stable.
pub proof fn lemma_request_converges(
    ctrl: RawController,
    req: Configuration,
    conn1: ConnView,
    conn2: ConnView,
    conn3: ConnView,
    slot: u8,
)
    requires
        ctrl.state is New,
        req.analog_mode,
        req.lock_mode,
        conn1.wf(),
        conn1.can_exchange(9),
        conn1.next_ack(),
        conn2.wf(),
        conn2.set_mode_ok(),
        conn3.wf(),
        conn3.can_exchange(9),
    ensures
        ({
            let cfg = Some(req);
            let c1 = spec_step_result(Some(ctrl), cfg, conn1, slot);
            let c2 = spec_step_result(c1, cfg, conn2, slot);
            let c3 = spec_step_result(c2, cfg, conn3, slot);
            &&& c1 matches Some(negotiating) && negotiating.state
                == ControllerState::Negotiating(Configuration::default_spec())
            &&& c2 matches Some(converged) && converged.state matches ControllerState::Negotiating(observed)
                && observed.analog_mode && observed.lock_mode
            &&& c3 matches Some(settled) && settled.state is Stable
        }),
{
}

/// A stable controller remains stable over any run of ticks whose polls
/// succeed and keep reporting its identity, whatever configuration
/// request is pending: stable ticks only refresh data.
pub proof fn lemma_stable_remains_stable(
    ctrl: RawController,
    cfg: Option<Configuration>,
    conns: Seq<ConnView>,
    slot: u8,
)
    requires
        ctrl.state is Stable,
        forall|i: int|
            0 <= i < conns.len() ==> (#[trigger] conns[i]).wf() && conns[i].poll_ok()
                && conns[i].poll_id() == ctrl.id.id,
    ensures
        spec_run_ticks(Some(ctrl), cfg, conns, slot) matches Some(still) && still.state
            is Stable && still.id == ctrl.id,
    decreases conns.len(),
{
    if conns.len() > 0 {
        let stepped = spec_step_result(Some(ctrl), cfg, conns[0], slot);
        assert(stepped matches Some(next) && next.state is Stable && next.id == ctrl.id);
        let next = stepped->Some_0;
        assert(forall|i: int|
            0 <= i < conns.drop_first().len() ==> (#[trigger] conns.drop_first()[i]).wf()
                && conns.drop_first()[i].poll_ok() && conns.drop_first()[i].poll_id()
                == next.id.id);
        lemma_stable_remains_stable(next, cfg, conns.drop_first(), slot);
    }
}

} // verus!
