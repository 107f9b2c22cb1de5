use vstd::prelude::*;
use vstd::string::*;
use crate::frame::{NotificationUpdate, UpdateModel};

verus! {

/// Milliseconds in a second: times handed to the state machine are in
/// milliseconds, delays in seconds.
pub const MILLIS_PER_SECOND: u64 = 1000;

/// Whether a close timer is pending, and for which delay it was armed.
#[derive(Clone, Copy, PartialEq, Eq, Structural, Debug)]
pub enum Phase {
    /// The window closes at `deadline` (milliseconds) unless another update
    /// with a different delay arrives first.
    Armed { delay: u64, deadline: u64 },
    /// The window is gone; the loop has to stop.
    Closed,
}

/// What the event loop has to do after one step.
#[derive(Clone, Copy, PartialEq, Eq, Structural, Debug)]
pub enum LoopAction {
    /// Nothing to draw; keep waiting.
    Wait,
    /// Relabel what changed and repaint the window.
    Repaint { title_changed: bool, message_changed: bool },
    /// Hide the window, remove the endpoint and end the process.
    Close,
}

/// What the event loop observed.
pub enum LoopEvent {
    /// An update came through the channel.
    Received(NotificationUpdate),
    /// One loop iteration passed without an update.
    Tick,
    /// The pointer was pressed on the window.
    Press,
}

/// The text on screen and the close timer of the one visible popup.
pub struct DisplayState {
    title: String,
    message: String,
    phase: Phase,
}

pub struct DisplayModel {
    pub title: Seq<char>,
    pub message: Seq<char>,
    pub phase: Phase,
}

impl View for DisplayState {
    type V = DisplayModel;

    closed spec fn view(&self) -> DisplayModel {
        DisplayModel { title: self.title@, message: self.message@, phase: self.phase }
    }
}

/// `delay` seconds after `now`, in milliseconds; the largest time where that
/// does not fit.
pub open spec fn deadline_after(now: u64, delay: u64) -> u64 {
    if now + delay * 1000 <= u64::MAX {
        (now + delay * 1000) as u64
    } else {
        u64::MAX
    }
}

/// The state right after the first update is shown at `now`.
pub open spec fn initial_spec(u: UpdateModel, now: u64) -> DisplayModel {
    DisplayModel {
        title: u.title,
        message: u.message,
        phase: Phase::Armed { delay: u.delay, deadline: deadline_after(now, u.delay) },
    }
}

/// The state after `u` arrives at `now`: the text is replaced; the timer is
/// restarted from `now` where the delay differs from the armed one, and kept
/// as it is otherwise.
pub open spec fn receive_spec(s: DisplayModel, u: UpdateModel, now: u64) -> DisplayModel {
    match s.phase {
        Phase::Closed => s,
        Phase::Armed { delay, deadline } => DisplayModel {
            title: u.title,
            message: u.message,
            phase: if u.delay != delay {
                Phase::Armed { delay: u.delay, deadline: deadline_after(now, u.delay) }
            } else {
                s.phase
            },
        },
    }
}

/// What has to be drawn when `u` arrives: a repaint only where the text changes.
pub open spec fn receive_action(s: DisplayModel, u: UpdateModel) -> LoopAction {
    match s.phase {
        Phase::Closed => LoopAction::Close,
        Phase::Armed { .. } => if s.title == u.title && s.message == u.message {
            LoopAction::Wait
        } else {
            LoopAction::Repaint {
                title_changed: s.title != u.title,
                message_changed: s.message != u.message,
            }
        },
    }
}

/// Whether the timer has run out at `now`.
pub open spec fn expired(s: DisplayModel, now: u64) -> bool {
    match s.phase {
        Phase::Armed { deadline, .. } => now >= deadline,
        Phase::Closed => true,
    }
}

pub open spec fn closed_spec(s: DisplayModel) -> DisplayModel {
    DisplayModel { title: s.title, message: s.message, phase: Phase::Closed }
}

/// The state after a run of updates, each with the time it arrived: the
/// first one opens the window, the others arrive at the open window in order.
pub open spec fn run_spec(ups: Seq<(UpdateModel, u64)>) -> DisplayModel
    decreases ups.len(),
{
    if ups.len() <= 1 {
        initial_spec(ups[0].0, ups[0].1)
    } else {
        receive_spec(run_spec(ups.drop_last()), ups.last().0, ups.last().1)
    }
}

/// The timer after a run: armed for the last update's delay, from the arrival
/// of the first update of the final stretch of updates that share that delay.
pub open spec fn timer_follows_last(ups: Seq<(UpdateModel, u64)>, phase: Phase, j: int) -> bool {
    &&& 0 <= j < ups.len()
    &&& phase == Phase::Armed {
        delay: ups.last().0.delay,
        deadline: deadline_after(ups[j].1, ups.last().0.delay),
    }
    &&& forall|k: int| j <= k < ups.len() ==> (#[trigger] ups[k]).0.delay == ups.last().0.delay
}

proof fn lemma_run_witness(ups: Seq<(UpdateModel, u64)>) -> (j: int)
    requires
        ups.len() > 0,
    ensures
        run_spec(ups).title == ups.last().0.title,
        run_spec(ups).message == ups.last().0.message,
        timer_follows_last(ups, run_spec(ups).phase, j),
    decreases ups.len(),
{
    if ups.len() == 1 {
        0
    } else {
        let prev = ups.drop_last();
        let i = lemma_run_witness(prev);
        if ups.last().0.delay != prev.last().0.delay {
            ups.len() - 1
        } else {
            assert forall|k: int| i <= k < ups.len() implies (#[trigger] ups[k]).0.delay
                == ups.last().0.delay by {
                if k < ups.len() - 1 {
                    assert(prev[k] == ups[k]);
                }
            }
            i
        }
    }
}

/// Whatever updates reach a window, in whatever order, it ends up showing the
/// last one's title and message, with its timer armed for the last one's
/// delay: counted from the arrival of the last update whose delay differed
/// from the one before it (or of the first update, if none did).
pub proof fn lemma_last_update_wins(ups: Seq<(UpdateModel, u64)>)
    requires
        ups.len() > 0,
    ensures
        run_spec(ups).title == ups.last().0.title,
        run_spec(ups).message == ups.last().0.message,
        exists|j: int| timer_follows_last(ups, run_spec(ups).phase, j),
{
    let j = lemma_run_witness(ups);
    assert(timer_follows_last(ups, run_spec(ups).phase, j));
}

/// An update whose delay differs from the armed one restarts the timer from
/// the moment it arrives, whatever was left of the old deadline, even where
/// its text is the same as the text on screen (which then is not repainted).
pub proof fn lemma_new_delay_restarts_timer(s: DisplayModel, u: UpdateModel, now: u64)
    requires
        s.phase matches Phase::Armed { delay, .. } && delay != u.delay,
    ensures
        receive_spec(s, u, now).phase == (Phase::Armed {
            delay: u.delay,
            deadline: deadline_after(now, u.delay),
        }),
        s.title == u.title && s.message == u.message ==> receive_action(s, u)
            == LoopAction::Wait,
{
}

/// `s` with each written `\\n` (a backslash, then `n`) turned into a line
/// break, scanned from the left.
pub open spec fn line_breaks_spec(s: Seq<char>) -> Seq<char>
    decreases s.len(),
{
    if s.len() == 0 {
        s
    } else if s.len() >= 2 && s[0] == '\\' && s[1] == 'n' {
        seq!['\n'] + line_breaks_spec(s.subrange(2, s.len() as int))
    } else {
        seq![s[0]] + line_breaks_spec(s.drop_first())
    }
}

/// The label text for a message: each written `\\n` becomes a line break.
pub fn line_breaks(s: &str) -> (r: String)
    ensures
        r@ == line_breaks_spec(s@),
{
    let n = s.unicode_len();
    let newline = "\n";
    proof {
        reveal_strlit("\n");
    }
    let mut out = String::new();
    let mut i: usize = 0;
    assert(s@.subrange(0, n as int) =~= s@);
    assert(out@ + line_breaks_spec(s@) =~= line_breaks_spec(s@));
    while i < n
        invariant
            i <= n,
            n == s@.len(),
            newline@ == seq!['\n'],
            out@ + line_breaks_spec(s@.subrange(i as int, n as int)) == line_breaks_spec(s@),
        decreases n - i,
    {
        let ghost rest = s@.subrange(i as int, n as int);
        if n - i >= 2 && s.get_char(i) == '\\' && s.get_char(i + 1) == 'n' {
            assert(rest.subrange(2, rest.len() as int) =~= s@.subrange(i + 2, n as int));
            out.append(newline);
            assert(out@ + line_breaks_spec(s@.subrange(i + 2, n as int)) =~= line_breaks_spec(s@));
            i = i + 2;
        } else {
            let one = s.substring_char(i, i + 1);
            assert(rest.drop_first() =~= s@.subrange(i + 1, n as int));
            assert(one@ =~= seq![rest[0]]);
            out.append(one);
            assert(out@ + line_breaks_spec(s@.subrange(i + 1, n as int)) =~= line_breaks_spec(s@));
            i = i + 1;
        }
    }
    assert(out@ =~= out@ + line_breaks_spec(s@.subrange(n as int, n as int)));
    out
}

fn deadline_from(now: u64, delay: u64) -> (r: u64)
    ensures
        r == deadline_after(now, delay),
{
    match delay.checked_mul(MILLIS_PER_SECOND) {
        Some(span) => now.saturating_add(span),
        None => {
            assert(delay * 1000 > u64::MAX);
            u64::MAX
        },
    }
}

impl DisplayState {
    /// Shows the first update at `now` and arms the close timer for its delay.
    pub fn new(first: NotificationUpdate, now: u64) -> (r: DisplayState)
        ensures
            r@ == initial_spec(first@, now),
    {
        let deadline = deadline_from(now, first.delay);
        DisplayState {
            title: first.title,
            message: first.message,
            phase: Phase::Armed { delay: first.delay, deadline },
        }
    }

    pub fn title(&self) -> (r: &str)
        ensures
            r@ == self@.title,
    {
        self.title.as_str()
    }

    pub fn message(&self) -> (r: &str)
        ensures
            r@ == self@.message,
    {
        self.message.as_str()
    }

    pub fn phase(&self) -> (r: Phase)
        ensures
            r == self@.phase,
    {
        self.phase
    }

    /// Applies one event observed at `now` and says what the loop must do.
    /// An update replaces the text and restarts the timer where its delay
    /// differs; a tick closes the window once the deadline is reached; a press
    /// closes it at once, whatever time is left.
    pub fn step(&mut self, event: LoopEvent, now: u64) -> (r: LoopAction)
        ensures
            match event {
                LoopEvent::Received(u) => {
                    &&& final(self)@ == receive_spec(old(self)@, u@, now)
                    &&& r == receive_action(old(self)@, u@)
                },
                LoopEvent::Tick => if expired(old(self)@, now) {
                    final(self)@ == closed_spec(old(self)@) && r == LoopAction::Close
                } else {
                    final(self)@ == old(self)@ && r == LoopAction::Wait
                },
                LoopEvent::Press => final(self)@ == closed_spec(old(self)@) && r
                    == LoopAction::Close,
            },
    {
        match event {
            LoopEvent::Received(u) => {
                match self.phase {
                    Phase::Closed => LoopAction::Close,
                    Phase::Armed { delay, .. } => {
                        let title_changed = self.title != u.title;
                        let message_changed = self.message != u.message;
                        if u.delay != delay {
                            let deadline = deadline_from(now, u.delay);
                            self.phase = Phase::Armed { delay: u.delay, deadline };
                        }
                        self.title = u.title;
                        self.message = u.message;
                        if title_changed || message_changed {
                            LoopAction::Repaint { title_changed, message_changed }
                        } else {
                            LoopAction::Wait
                        }
                    },
                }
            },
            LoopEvent::Tick => {
                let due = match self.phase {
                    Phase::Armed { deadline, .. } => now >= deadline,
                    Phase::Closed => true,
                };
                if due {
                    self.phase = Phase::Closed;
                    LoopAction::Close
                } else {
                    LoopAction::Wait
                }
            },
            LoopEvent::Press => {
                self.phase = Phase::Closed;
                LoopAction::Close
            },
        }
    }
}

} // verus!
