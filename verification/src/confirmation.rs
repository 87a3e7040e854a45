use vstd::prelude::*;
use vstd::string::*;

use crate::text::{decimal, push_decimal};

verus! {

/// The question asked after new settings are applied, counting down.
pub open spec fn spec_confirmation_text(seconds_left: nat) -> Seq<char> {
    "Do you want to keep the new settings? (Reverting in "@ + decimal(seconds_left) + " seconds)"@
}

/// The question asked after new settings are applied, with the seconds
/// left before they are reverted.
pub fn confirmation_text(seconds_left: u64) -> (r: String)
    ensures
        r@ == spec_confirmation_text(seconds_left as nat),
{
    let mut out = String::from_str("Do you want to keep the new settings? (Reverting in ");
    push_decimal(&mut out, seconds_left);
    out.append(" seconds)");
    out
}

/// What the daemon is told to do with settings that await confirmation.
#[derive(Debug, Clone, Copy, PartialEq, Eq, Structural)]
pub enum ConfirmCommand {
    Confirm,
    Revert,
}

/// The command for the user's answer: keep the settings only on "Yes".
pub fn confirm_command(answered_yes: bool) -> (r: ConfirmCommand)
    ensures
        r == (if answered_yes {
            ConfirmCommand::Confirm
        } else {
            ConfirmCommand::Revert
        }),
{
    if answered_yes {
        ConfirmCommand::Confirm
    } else {
        ConfirmCommand::Revert
    }
}

/// What one second of the confirmation countdown does.
#[derive(Debug, Clone, Copy, PartialEq, Eq, Structural)]
pub enum CountdownStep {
    /// The user answered: stop counting.
    Stop,
    /// Show the question with this many seconds left and keep counting.
    Update(u64),
    /// Time is up: show zero seconds, close the question, reload the settings and stop.
    Expire,
}

/// The countdown of the confirmation question.
#[derive(Debug, Clone, Copy, PartialEq, Eq, Structural)]
pub struct ConfirmationCountdown {
    pub seconds_left: u64,
    pub answered: bool,
}

/// One second of the countdown from state `c`: the state after it and its step.
pub open spec fn spec_tick(c: ConfirmationCountdown) -> (ConfirmationCountdown, CountdownStep) {
    if c.answered {
        (c, CountdownStep::Stop)
    } else {
        let left = (c.seconds_left - 1) as u64;
        (
            ConfirmationCountdown { seconds_left: left, answered: false },
            if left == 0 {
                CountdownStep::Expire
            } else {
                CountdownStep::Update(left)
            },
        )
    }
}

impl ConfirmationCountdown {
    /// A countdown of `seconds` seconds, not answered yet.
    pub fn new(seconds: u64) -> (r: Self)
        ensures
            r == (ConfirmationCountdown { seconds_left: seconds, answered: false }),
    {
        ConfirmationCountdown { seconds_left: seconds, answered: false }
    }

    /// The user answered the question.
    pub fn answer(&mut self)
        ensures
            final(self).answered,
            final(self).seconds_left == old(self).seconds_left,
    {
        self.answered = true;
    }

    /// One second passes.
    pub fn tick(&mut self) -> (r: CountdownStep)
        requires
            old(self).answered || old(self).seconds_left > 0,
        ensures
            (*final(self), r) == spec_tick(*old(self)),
    {
        if self.answered {
            return CountdownStep::Stop;
        }
        self.seconds_left = self.seconds_left - 1;
        if self.seconds_left == 0 {
            CountdownStep::Expire
        } else {
            CountdownStep::Update(self.seconds_left)
        }
    }
}

/// The state after `k` unanswered seconds from `c`.
pub open spec fn ticks(c: ConfirmationCountdown, k: nat) -> ConfirmationCountdown
    decreases k,
{
    if k == 0 {
        c
    } else {
        spec_tick(ticks(c, (k - 1) as nat)).0
    }
}

/// Left unanswered, a countdown of `d > 0` seconds shows `d - 1`, ..., `1`
/// seconds left, one per second, and expires at the `d`-th second.
pub proof fn lemma_countdown_expires(d: u64, k: nat)
    requires
        d > 0,
        k < d,
    ensures
        ticks(ConfirmationCountdown { seconds_left: d, answered: false }, k) == (ConfirmationCountdown {
            seconds_left: (d - k) as u64,
            answered: false,
        }),
        spec_tick(ticks(ConfirmationCountdown { seconds_left: d, answered: false }, k)).1 == if k + 1
            == d {
            CountdownStep::Expire
        } else {
            CountdownStep::Update((d - k - 1) as u64)
        },
    decreases k,
{
    if k > 0 {
        lemma_countdown_expires(d, (k - 1) as nat);
    }
}

/// How many error dialogs may be open at once.
pub const MAX_ERROR_DIALOGS: u32 = 3;

/// The number of open error dialogs.
#[derive(Debug, Clone, Copy, PartialEq, Eq, Structural)]
pub struct ErrorDialogs {
    pub open: u32,
}

impl ErrorDialogs {
    /// No dialog is open.
    pub fn new() -> (r: Self)
        ensures
            r.open == 0,
    {
        ErrorDialogs { open: 0 }
    }

    /// Whether a new error gets a dialog: only while fewer than three are
    /// open; if so it counts as open.
    pub fn try_open(&mut self) -> (r: bool)
        ensures
            r == (old(self).open < MAX_ERROR_DIALOGS),
            old(self).open <= MAX_ERROR_DIALOGS ==> final(self).open <= MAX_ERROR_DIALOGS,
            final(self).open == if r {
                (old(self).open + 1) as u32
            } else {
                old(self).open
            },
    {
        if self.open > 2 {
            return false;
        }
        self.open = self.open + 1;
        true
    }

    /// An error dialog was closed.
    pub fn close(&mut self)
        requires
            old(self).open > 0,
        ensures
            final(self).open == old(self).open - 1,
    {
        self.open = self.open - 1;
    }
}

} // verus!
