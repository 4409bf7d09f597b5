//! The admin core: what it does with each message from the key-processing
//! core, the power LED, and the commands typed over the debug serial line.
use vstd::prelude::*;
use crate::keymap::KeymapLayer;
use crate::runtime::{LoopCount, SleepCountdown, SleepView, sleep_due};

verus! {

/// Messages from the left half's key-processing core to its admin core.
#[derive(Debug, Copy, Clone)]
pub enum KeycoreToAdminMessage {
    /// A left key event; how long its loop iteration took, in microseconds.
    TouchLeft(u64),
    /// A right key event; how long its loop iteration took.
    TouchRight(u64),
    /// Scan loops counted, for the scan latency.
    Loop(LoopCount),
    /// The base layer to show.
    LayerChange(KeymapLayer),
    /// Bytes received from the right half.
    Rx(u16),
    /// Show the boot message, then reboot into the bootloader.
    Reboot,
}

/// Received-byte counts above this start over.
pub const RX_DISPLAY_MAX: u16 = 9999;

/// What the admin core does in one loop iteration.
#[derive(Debug, Copy, Clone)]
pub struct AdminStep {
    /// Turn the power LED on and show the display.
    pub wake: bool,
    /// A left key latency to add to its running average.
    pub left_latency: Option<u64>,
    /// A right key latency to add to its running average.
    pub right_latency: Option<u64>,
    /// Scan loops to show.
    pub scan_loop: Option<LoopCount>,
    /// The layer to show.
    pub layer: Option<KeymapLayer>,
    /// The received-byte count to show.
    pub rx: Option<u16>,
    /// The queue fill to show.
    pub queue: Option<usize>,
    /// Hide the display and turn the LED off.
    pub sleep: bool,
    /// Show the boot message and reboot.
    pub reboot: bool,
}

pub struct AdminView {
    pub sleep: SleepView,
    pub rx: u16,
    pub last_avail: usize,
}

/// The admin core's running state.
pub struct AdminState {
    sleep: SleepCountdown,
    rx: u16,
    last_avail: usize,
}

impl View for AdminState {
    type V = AdminView;

    open spec fn view(&self) -> AdminView {
        self.admin_view()
    }
}

/// The received-byte count after `incr` more.
pub open spec fn rx_after(rx: u16, incr: u16) -> u16 {
    if rx + incr > RX_DISPLAY_MAX {
        incr
    } else {
        (rx + incr) as u16
    }
}

/// The shown count never passes [`RX_DISPLAY_MAX`] when no single batch
/// does.
pub proof fn lemma_rx_stays_shown(rx: u16, incr: u16)
    requires
        incr <= RX_DISPLAY_MAX,
    ensures
        rx_after(rx, incr) <= RX_DISPLAY_MAX,
{
}

/// Whether a message counts as a key event, which restarts the sleep
/// countdown.
pub open spec fn touches(msg: Option<KeycoreToAdminMessage>) -> bool {
    match msg {
        Some(KeycoreToAdminMessage::TouchLeft(_)) => true,
        Some(KeycoreToAdminMessage::TouchRight(_)) => true,
        Some(KeycoreToAdminMessage::Rx(_)) => true,
        _ => false,
    }
}

impl AdminState {
    pub closed spec fn admin_view(&self) -> AdminView {
        AdminView { sleep: self.sleep@, rx: self.rx, last_avail: self.last_avail }
    }

    pub fn new() -> (r: Self)
        ensures
            r@ == (AdminView {
                sleep: SleepView { is_asleep: false, touched_last: 0 },
                rx: 0,
                last_avail: 0,
            }),
    {
        AdminState { sleep: SleepCountdown::new(), rx: 0, last_avail: 0 }
    }

    /// The received-byte count shown.
    pub fn rx(&self) -> (r: u16)
        ensures
            r == self@.rx,
    {
        self.rx
    }

    /// One iteration of the admin loop at `now`, with `avail` messages
    /// waiting before `msg` was taken. The received-byte count must not
    /// overflow its `u16` when a batch is added.
    pub fn step(&mut self, msg: Option<KeycoreToAdminMessage>, avail: usize, now: u64) -> (r: AdminStep)
        requires
            msg matches Some(KeycoreToAdminMessage::Rx(incr)) ==> old(self)@.rx + incr <= u16::MAX,
        ensures
            ({
                let touched = if touches(msg) {
                    SleepView { is_asleep: false, touched_last: now }
                } else {
                    old(self)@.sleep
                };
                let due = sleep_due(touched, now);
                &&& r.wake == (msg matches Some(KeycoreToAdminMessage::TouchLeft(_)) || msg matches Some(
                    KeycoreToAdminMessage::TouchRight(_),
                ))
                &&& r.left_latency == (match msg {
                    Some(KeycoreToAdminMessage::TouchLeft(m)) => Some(m),
                    _ => None,
                })
                &&& r.right_latency == (match msg {
                    Some(KeycoreToAdminMessage::TouchRight(m)) => Some(m),
                    _ => None,
                })
                &&& r.scan_loop == (match msg {
                    Some(KeycoreToAdminMessage::Loop(lc)) => if !old(self)@.sleep.is_asleep {
                        Some(lc)
                    } else {
                        None
                    },
                    _ => None,
                })
                &&& r.layer == (match msg {
                    Some(KeycoreToAdminMessage::LayerChange(l)) => Some(l),
                    _ => None,
                })
                &&& r.rx == (match msg {
                    Some(KeycoreToAdminMessage::Rx(incr)) => Some(rx_after(old(self)@.rx, incr)),
                    _ => None,
                })
                &&& r.reboot == (msg matches Some(KeycoreToAdminMessage::Reboot))
                &&& r.queue == (if !r.reboot && avail != old(self)@.last_avail {
                    Some(avail)
                } else {
                    None
                })
                &&& r.sleep == (!r.reboot && due)
                &&& final(self)@.rx == (match msg {
                    Some(KeycoreToAdminMessage::Rx(incr)) => rx_after(old(self)@.rx, incr),
                    _ => old(self)@.rx,
                })
                &&& !r.reboot ==> final(self)@.last_avail == avail && final(self)@.sleep == (if due {
                    SleepView { is_asleep: true, ..touched }
                } else {
                    touched
                })
                &&& r.reboot ==> final(self)@ == old(self)@
            }),
    {
        let mut step = AdminStep {
            wake: false,
            left_latency: None,
            right_latency: None,
            scan_loop: None,
            layer: None,
            rx: None,
            queue: None,
            sleep: false,
            reboot: false,
        };
        match msg {
            Some(KeycoreToAdminMessage::TouchLeft(micros)) => {
                step.left_latency = Some(micros);
                self.sleep.touch(now);
                step.wake = true;
            },
            Some(KeycoreToAdminMessage::TouchRight(micros)) => {
                step.right_latency = Some(micros);
                self.sleep.touch(now);
                step.wake = true;
            },
            Some(KeycoreToAdminMessage::Loop(lc)) => {
                if self.sleep.is_awake() {
                    step.scan_loop = Some(lc);
                }
            },
            Some(KeycoreToAdminMessage::LayerChange(layer)) => {
                step.layer = Some(layer);
            },
            Some(KeycoreToAdminMessage::Rx(incr)) => {
                self.rx = self.rx + incr;
                if self.rx > RX_DISPLAY_MAX {
                    self.rx = incr;
                }
                self.sleep.touch(now);
                step.rx = Some(self.rx);
            },
            Some(KeycoreToAdminMessage::Reboot) => {
                step.reboot = true;
                return step;
            },
            None => {},
        }
        if avail != self.last_avail {
            step.queue = Some(avail);
            self.last_avail = avail;
        }
        if self.sleep.should_sleep(now) {
            step.sleep = true;
            self.sleep.set_sleeping();
        }
        step
    }
}

/// The power LED's state; the pin itself is driven by the caller.
pub struct PowerLed {
    state: bool,
}

impl PowerLed {
    pub closed spec fn on(&self) -> bool {
        self.state
    }

    /// The LED as its pin was read at start-up.
    pub fn new(initially_on: bool) -> (r: Self)
        ensures
            r.on() == initially_on,
    {
        PowerLed { state: initially_on }
    }

    pub fn is_on(&self) -> (r: bool)
        ensures
            r == self.on(),
    {
        self.state
    }

    /// Turns the LED on; true when the pin must be driven (it was off).
    pub fn turn_on(&mut self) -> (r: bool)
        ensures
            final(self).on(),
            r == !old(self).on(),
    {
        if !self.state {
            self.state = true;
            true
        } else {
            false
        }
    }

    /// Turns the LED off; true when the pin must be driven (it was on).
    pub fn turn_off(&mut self) -> (r: bool)
        ensures
            !final(self).on(),
            r == old(self).on(),
    {
        if self.state {
            self.state = false;
            true
        } else {
            false
        }
    }
}

/// Commands typed over the debug serial line.
#[derive(Debug, Copy, Clone, PartialEq, Eq, Structural)]
pub enum SerialCommand {
    /// `boot`: reboot into the bootloader.
    Boot,
    /// `output`: start writing debug output.
    Output,
    /// `led`: toggle the power LED.
    Led,
    /// `CLOCK`: print the system clock.
    Clock,
}

/// Bytes of serial input remembered for matching commands.
pub const COMMAND_WINDOW: usize = 128;

pub open spec fn ends_with(s: Seq<u8>, suffix: Seq<u8>) -> bool {
    suffix.len() <= s.len() && s.subrange(s.len() - suffix.len(), s.len() as int) == suffix
}

/// The command that the window's last bytes spell, checked in the order
/// `boot`, `output`, `led`, `CLOCK`.
pub open spec fn command_of(window: Seq<u8>) -> Option<SerialCommand> {
    if ends_with(window, seq![98u8, 111, 111, 116]) {
        Some(SerialCommand::Boot)
    } else if ends_with(window, seq![111u8, 117, 116, 112, 117, 116]) {
        Some(SerialCommand::Output)
    } else if ends_with(window, seq![108u8, 101, 100]) {
        Some(SerialCommand::Led)
    } else if ends_with(window, seq![67u8, 76, 79, 67, 75]) {
        Some(SerialCommand::Clock)
    } else {
        None
    }
}

/// The last [`COMMAND_WINDOW`] bytes received on the serial line.
pub struct CommandWindow {
    chars: Vec<u8>,
}

impl View for CommandWindow {
    type V = Seq<u8>;

    open spec fn view(&self) -> Seq<u8> {
        self.bytes()
    }
}

fn window_ends_with(w: &Vec<u8>, suffix: &[u8]) -> (r: bool)
    ensures
        r == ends_with(w@, suffix@),
{
    if suffix.len() > w.len() {
        return false;
    }
    let wl = w.len();
    let start = wl - suffix.len();
    let mut i: usize = 0;
    while i < suffix.len()
        invariant
            i <= suffix@.len(),
            suffix@.len() <= w@.len(),
            wl == w@.len(),
            start == w@.len() - suffix@.len(),
            forall|j: int| 0 <= j < i ==> w@[start + j] == suffix@[j],
        decreases suffix@.len() - i,
    {
        if w[start + i] != suffix[i] {
            assert(w@.subrange(start as int, w@.len() as int)[i as int] != suffix@[i as int]);
            return false;
        }
        i = i + 1;
    }
    assert(w@.subrange(start as int, w@.len() as int) =~= suffix@);
    true
}

impl CommandWindow {
    pub closed spec fn bytes(&self) -> Seq<u8> {
        self.chars@
    }

    #[verifier::type_invariant]
    spec fn holds_window(&self) -> bool {
        self.chars@.len() == COMMAND_WINDOW
    }

    /// A window of zero bytes.
    pub fn new() -> (r: Self)
        ensures
            r@ == Seq::new(COMMAND_WINDOW as nat, |i: int| 0u8),
    {
        let mut chars: Vec<u8> = Vec::new();
        let mut i: usize = 0;
        while i < COMMAND_WINDOW
            invariant
                i <= COMMAND_WINDOW,
                chars@ == Seq::new(i as nat, |j: int| 0u8),
            decreases COMMAND_WINDOW - i,
        {
            chars.push(0);
            i = i + 1;
            assert(chars@ =~= Seq::new(i as nat, |j: int| 0u8));
        }
        CommandWindow { chars }
    }

    /// Shifts `byte` in, dropping the oldest byte, and says which command
    /// the window now ends with.
    pub fn push_byte(&mut self, byte: u8) -> (r: Option<SerialCommand>)
        ensures
            final(self)@.len() == COMMAND_WINDOW,
            final(self)@ == old(self)@.drop_first().push(byte),
            r == command_of(final(self)@),
    {
        proof {
            use_type_invariant(&*self);
        }
        let n = self.chars.len();
        let mut shifted: Vec<u8> = Vec::new();
        let mut i: usize = 1;
        while i < n
            invariant
                n == COMMAND_WINDOW,
                self.chars@ == old(self)@,
                self.chars@.len() == n,
                1 <= i <= n,
                shifted@ =~= old(self)@.subrange(1, i as int),
            decreases n - i,
        {
            shifted.push(self.chars[i]);
            i = i + 1;
        }
        shifted.push(byte);
        assert(shifted@ =~= old(self)@.drop_first().push(byte));
        self.chars = shifted;
        let boot = [98u8, 111, 111, 116];
        let output = [111u8, 117, 116, 112, 117, 116];
        let led = [108u8, 101, 100];
        let clock = [67u8, 76, 79, 67, 75];
        assert(boot@ =~= seq![98u8, 111, 111, 116]);
        assert(output@ =~= seq![111u8, 117, 116, 112, 117, 116]);
        assert(led@ =~= seq![108u8, 101, 100]);
        assert(clock@ =~= seq![67u8, 76, 79, 67, 75]);
        if window_ends_with(&self.chars, &boot) {
            Some(SerialCommand::Boot)
        } else if window_ends_with(&self.chars, &output) {
            Some(SerialCommand::Output)
        } else if window_ends_with(&self.chars, &led) {
            Some(SerialCommand::Led)
        } else if window_ends_with(&self.chars, &clock) {
            Some(SerialCommand::Clock)
        } else {
            None
        }
    }
}

/// Messages from the right half's key-processing core to its admin core.
#[derive(Debug, Copy, Clone)]
pub enum RightKeycoreToAdminMessage {
    /// Scan loops counted, for the scan latency.
    Loop(LoopCount),
    /// Key events were sent to the left half: how many bytes, and how long
    /// the loop iteration took, in microseconds.
    Touch { tx_bytes: u16, loop_duration: u64 },
    /// Show the boot message, then reboot into the bootloader.
    Reboot,
}

/// What the right half's admin core does in one loop iteration.
#[derive(Debug, Copy, Clone)]
pub struct RightAdminStep {
    /// Show the display.
    pub wake: bool,
    /// A key latency to add to its running average.
    pub latency: Option<u64>,
    /// The sent-byte count to show.
    pub tx: Option<u16>,
    /// Scan loops to show.
    pub scan_loop: Option<LoopCount>,
    /// Hide the display.
    pub sleep: bool,
    /// Show the boot message and reboot.
    pub reboot: bool,
}

pub struct RightAdminView {
    pub sleep: SleepView,
    pub tx: u16,
}

/// The right half's admin core's running state.
pub struct RightAdminState {
    sleep: SleepCountdown,
    tx: u16,
}

impl View for RightAdminState {
    type V = RightAdminView;

    open spec fn view(&self) -> RightAdminView {
        self.right_admin_view()
    }
}

/// The sent-byte count after `incr` more; it wraps around.
pub open spec fn tx_after(tx: u16, incr: u16) -> u16 {
    ((tx + incr) % 0x10000) as u16
}

impl RightAdminState {
    pub closed spec fn right_admin_view(&self) -> RightAdminView {
        RightAdminView { sleep: self.sleep@, tx: self.tx }
    }

    pub fn new() -> (r: Self)
        ensures
            r@ == (RightAdminView { sleep: SleepView { is_asleep: false, touched_last: 0 }, tx: 0 }),
    {
        RightAdminState { sleep: SleepCountdown::new(), tx: 0 }
    }

    /// One iteration of the right half's admin loop at `now`.
    pub fn step(&mut self, msg: Option<RightKeycoreToAdminMessage>, now: u64) -> (r: RightAdminStep)
        ensures
            ({
                let touched = match msg {
                    Some(RightKeycoreToAdminMessage::Touch { .. }) => SleepView {
                        is_asleep: false,
                        touched_last: now,
                    },
                    _ => old(self)@.sleep,
                };
                let due = sleep_due(touched, now);
                &&& r.wake == (msg matches Some(RightKeycoreToAdminMessage::Touch { .. }))
                &&& r.latency == (match msg {
                    Some(RightKeycoreToAdminMessage::Touch { loop_duration, .. }) => Some(loop_duration),
                    _ => None,
                })
                &&& r.tx == (match msg {
                    Some(RightKeycoreToAdminMessage::Touch { tx_bytes, .. }) => Some(
                        tx_after(old(self)@.tx, tx_bytes),
                    ),
                    _ => None,
                })
                &&& r.scan_loop == (match msg {
                    Some(RightKeycoreToAdminMessage::Loop(lc)) => if !old(self)@.sleep.is_asleep {
                        Some(lc)
                    } else {
                        None
                    },
                    _ => None,
                })
                &&& r.reboot == (msg matches Some(RightKeycoreToAdminMessage::Reboot))
                &&& r.sleep == (!r.reboot && due)
                &&& final(self)@.tx == (match msg {
                    Some(RightKeycoreToAdminMessage::Touch { tx_bytes, .. }) => tx_after(
                        old(self)@.tx,
                        tx_bytes,
                    ),
                    _ => old(self)@.tx,
                })
                &&& !r.reboot ==> final(self)@.sleep == (if due {
                    SleepView { is_asleep: true, ..touched }
                } else {
                    touched
                })
                &&& r.reboot ==> final(self)@ == old(self)@
            }),
    {
        let mut step = RightAdminStep {
            wake: false,
            latency: None,
            tx: None,
            scan_loop: None,
            sleep: false,
            reboot: false,
        };
        match msg {
            Some(RightKeycoreToAdminMessage::Loop(lc)) => {
                if self.sleep.is_awake() {
                    step.scan_loop = Some(lc);
                }
            },
            Some(RightKeycoreToAdminMessage::Touch { tx_bytes, loop_duration }) => {
                self.tx = self.tx.wrapping_add(tx_bytes);
                self.sleep.touch(now);
                step.latency = Some(loop_duration);
                step.tx = Some(self.tx);
                step.wake = true;
            },
            Some(RightKeycoreToAdminMessage::Reboot) => {
                step.reboot = true;
                return step;
            },
            None => {},
        }
        if self.sleep.should_sleep(now) {
            step.sleep = true;
            self.sleep.set_sleeping();
        }
        step
    }
}

} // verus!
