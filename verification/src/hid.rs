//! The boot-protocol keyboard report sent to the host.
use vstd::prelude::*;

verus! {

/// A HID keyboard input report: the pressed modifier bits and up to six
/// pressed keys.
#[derive(Debug, Copy, Clone)]
pub struct KeyboardReport {
    pub modifier: u8,
    pub reserved: u8,
    pub leds: u8,
    pub keycodes: [u8; 6],
}

/// A report's contents with the keys as a sequence.
pub struct ReportView {
    pub modifier: u8,
    pub reserved: u8,
    pub leds: u8,
    pub keycodes: Seq<u8>,
}

impl View for KeyboardReport {
    type V = ReportView;

    open spec fn view(&self) -> ReportView {
        ReportView {
            modifier: self.modifier,
            reserved: self.reserved,
            leds: self.leds,
            keycodes: self.keycodes@,
        }
    }
}

/// The report with nothing pressed.
pub open spec fn empty_report_view() -> ReportView {
    ReportView { modifier: 0, reserved: 0, leds: 0, keycodes: seq![0u8, 0, 0, 0, 0, 0] }
}

/// A report with nothing pressed.
pub fn transform_state() -> (r: KeyboardReport)
    ensures
        r@ == empty_report_view(),
{
    let r = KeyboardReport { modifier: 0, reserved: 0, leds: 0, keycodes: [0u8; 6] };
    assert(r@.keycodes =~= seq![0u8, 0, 0, 0, 0, 0]);
    r
}

/// A field-by-field copy of a report.
pub fn copy_report(keyboard_report: &KeyboardReport) -> (r: KeyboardReport)
    ensures
        r@ == keyboard_report@,
{
    KeyboardReport {
        modifier: keyboard_report.modifier,
        reserved: keyboard_report.reserved,
        leds: keyboard_report.leds,
        keycodes: keyboard_report.keycodes,
    }
}

/// A call on the HID submit gate.
#[derive(Debug, Copy, Clone, PartialEq, Eq, Structural)]
pub enum GateOp {
    /// A report is offered.
    Submit,
    /// The device was polled.
    Poll,
}

/// What a call does to a gate that is `ready`: whether it is ready after,
/// and whether a report goes to the HID class.
pub open spec fn gate_step(ready: bool, op: GateOp) -> (bool, bool) {
    match op {
        GateOp::Submit => (false, ready),
        GateOp::Poll => (true, false),
    }
}

/// How many reports go to the HID class over `ops`, from a gate that is
/// `ready`.
pub open spec fn gate_pushes(ready: bool, ops: Seq<GateOp>) -> nat
    decreases ops.len(),
{
    if ops.len() == 0 {
        0
    } else {
        let (next, pushed) = gate_step(ready, ops[0]);
        (if pushed { 1nat } else { 0nat }) + gate_pushes(next, ops.drop_first())
    }
}

/// Whether the next report may be handed to the USB HID class: one report
/// per poll of the device, since the key core produces reports far faster
/// than the host polls for them.
pub struct SubmitGate {
    ready: bool,
}

impl SubmitGate {
    pub closed spec fn is_ready(&self) -> bool {
        self.ready
    }

    /// Ready for the first report.
    pub fn new() -> (r: Self)
        ensures
            r.is_ready(),
    {
        SubmitGate { ready: true }
    }

    /// Whether a report is to be handed over now; after that no other is
    /// until the next poll.
    pub fn try_submit_report(&mut self) -> (r: bool)
        ensures
            (final(self).is_ready(), r) == gate_step(old(self).is_ready(), GateOp::Submit),
    {
        let r = self.ready;
        self.ready = false;
        r
    }

    /// The device was polled: the next report may go.
    pub fn poll(&mut self)
        ensures
            final(self).is_ready() == gate_step(old(self).is_ready(), GateOp::Poll).0,
    {
        self.ready = true;
    }
}

/// Between two polls (or before the first) at most one report goes to the
/// HID class: over offers with no poll among them, the first goes when the
/// gate was ready and none go when it was not.
pub proof fn lemma_one_report_per_poll(ready: bool, ops: Seq<GateOp>)
    requires
        forall|i: int| 0 <= i < ops.len() ==> ops[i] == GateOp::Submit,
    ensures
        gate_pushes(ready, ops) <= 1,
        !ready ==> gate_pushes(ready, ops) == 0,
        ready && ops.len() > 0 ==> gate_pushes(ready, ops) == 1,
    decreases ops.len(),
{
    if ops.len() > 0 {
        assert forall|i: int| 0 <= i < ops.drop_first().len() implies ops.drop_first()[i] == GateOp::Submit by {
            assert(ops[i + 1] == GateOp::Submit);
        }
        lemma_one_report_per_poll(false, ops.drop_first());
    }
}

} // verus!
