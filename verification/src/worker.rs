//! The automatic loop: run the command, wait the interval second by second,
//! start over, until the flag that keeps it going is down.
//!
//! The loop is driven from outside. Each step is told what the flag reads and
//! answers with what to do before the flag is read again.

use crate::mode::Mode;
use crate::winmem::MemoryListCommand;
use vstd::prelude::*;

verus! {

/// Where the loop stands when the flag is read.
#[derive(Clone, Copy, Debug, PartialEq, Eq, Structural)]
pub enum LoopPhase {
    /// At the top of the loop.
    Checking,
    /// Waiting, with this many seconds to go.
    Waiting(u64),
    /// Left for good.
    Stopped,
}

/// What to do before the flag is read again.
#[derive(Clone, Copy, Debug, PartialEq, Eq, Structural)]
pub enum LoopAction {
    /// Run the command and ignore its outcome.
    Run(MemoryListCommand),
    /// Sleep for one second.
    SleepOneSecond,
    /// Nothing: read the flag at once.
    CheckAgain,
    /// End the loop.
    Exit,
}

/// One automatic loop. The mode and the interval are those it was started with.
#[derive(Clone, Copy, Debug, PartialEq, Eq, Structural)]
pub struct AutoClean {
    pub mode: Mode,
    pub secs: u64,
    pub phase: LoopPhase,
}

impl AutoClean {
    /// A loop that was not stepped yet.
    pub open spec fn fresh(mode: Mode, secs: u64) -> AutoClean {
        AutoClean { mode, secs, phase: LoopPhase::Checking }
    }

    /// Whether the wait is no longer than the interval, and not over.
    pub open spec fn wf(self) -> bool {
        self.phase matches LoopPhase::Waiting(left) ==> 0 < left <= self.secs
    }

    /// The loop with this many seconds to wait, at the top if there are none.
    pub open spec fn waiting(self, left: int) -> AutoClean {
        AutoClean {
            phase: if left <= 0 {
                LoopPhase::Checking
            } else {
                LoopPhase::Waiting(left as u64)
            },
            ..self
        }
    }

    /// One step: the loop afterwards, and what to do.
    pub open spec fn next(self, looping: bool) -> (AutoClean, LoopAction) {
        match self.phase {
            LoopPhase::Checking => if looping {
                (self.waiting(self.secs as int), LoopAction::Run(self.mode.command()))
            } else {
                (AutoClean { phase: LoopPhase::Stopped, ..self }, LoopAction::Exit)
            },
            LoopPhase::Waiting(left) => if looping {
                (self.waiting(left - 1), LoopAction::SleepOneSecond)
            } else {
                (self.waiting(0), LoopAction::CheckAgain)
            },
            LoopPhase::Stopped => (self, LoopAction::Exit),
        }
    }

    /// The loop after the flag was read as `flags` says.
    pub open spec fn after(self, flags: Seq<bool>) -> AutoClean
        decreases flags.len(),
    {
        if flags.len() == 0 {
            self
        } else {
            self.after(flags.drop_last()).next(flags.last()).0
        }
    }

    /// What is done after the flag was read for the `k`-th time.
    pub open spec fn action(self, flags: Seq<bool>, k: int) -> LoopAction {
        self.after(flags.take(k)).next(flags[k]).1
    }

    /// A loop for this mode that waits this long between two runs.
    pub fn new(mode: Mode, secs: u64) -> (auto: AutoClean)
        ensures
            auto == AutoClean::fresh(mode, secs),
            auto.mode == mode,
            auto.secs == secs,
            auto.phase == LoopPhase::Checking,
            auto.wf(),
    {
        AutoClean { mode, secs, phase: LoopPhase::Checking }
    }

    /// Takes one step, for a flag that reads `looping`.
    pub fn step(&mut self, looping: bool) -> (action: LoopAction)
        ensures
            (*final(self), action) == old(self).next(looping),
            final(self).mode == old(self).mode,
            final(self).secs == old(self).secs,
            action is Run <==> looping && old(self).phase == LoopPhase::Checking,
            action is Run ==> action == LoopAction::Run(old(self).mode.command()),
            action is Run && old(self).secs > 0 ==> final(self).phase == LoopPhase::Waiting(
                old(self).secs,
            ),
            action is Run && old(self).secs == 0 ==> final(self).phase == LoopPhase::Checking,
            action == LoopAction::SleepOneSecond <==> looping && old(self).phase is Waiting,
            action == LoopAction::SleepOneSecond ==> match old(self).phase {
                LoopPhase::Waiting(left) => if left > 1 {
                    final(self).phase == LoopPhase::Waiting((left - 1) as u64)
                } else {
                    final(self).phase == LoopPhase::Checking
                },
                _ => true,
            },
            action == LoopAction::CheckAgain <==> !looping && old(self).phase is Waiting,
            action == LoopAction::CheckAgain ==> final(self).phase == LoopPhase::Checking,
            action == LoopAction::Exit <==> final(self).phase == LoopPhase::Stopped,
            old(self).wf() ==> final(self).wf(),
    {
        match self.phase {
            LoopPhase::Checking => {
                if looping {
                    if self.secs > 0 {
                        self.phase = LoopPhase::Waiting(self.secs);
                    }
                    LoopAction::Run(self.mode.to_command())
                } else {
                    self.phase = LoopPhase::Stopped;
                    LoopAction::Exit
                }
            },
            LoopPhase::Waiting(left) => {
                if !looping {
                    self.phase = LoopPhase::Checking;
                    LoopAction::CheckAgain
                } else {
                    if left > 1 {
                        self.phase = LoopPhase::Waiting(left - 1);
                    } else {
                        self.phase = LoopPhase::Checking;
                    }
                    LoopAction::SleepOneSecond
                }
            },
            LoopPhase::Stopped => LoopAction::Exit,
        }
    }
}

/// Where a fresh loop stands after `n` readings of a flag that stays up.
spec fn cruising(start: AutoClean, n: int) -> AutoClean {
    let r = n % (start.secs + 1);
    if r == 0 {
        start
    } else {
        start.waiting(start.secs + 1 - r)
    }
}

proof fn lemma_cruising(start: AutoClean, flags: Seq<bool>)
    requires
        start.phase == LoopPhase::Checking,
        forall|i: int| 0 <= i < flags.len() ==> #[trigger] flags[i],
    ensures
        start.after(flags) == cruising(start, flags.len() as int),
    decreases flags.len(),
{
    let period = start.secs + 1;
    if flags.len() == 0 {
        assert(0int % period == 0) by (nonlinear_arith)
            requires
                period > 0,
        ;
    } else {
        let n = flags.len() as int;
        lemma_cruising(start, flags.drop_last());
        lemma_mod_step(n - 1, period);
    }
}

proof fn lemma_mod_step(n: int, d: int)
    requires
        d > 0,
    ensures
        0 <= n % d < d,
        (n + 1) % d == if n % d == d - 1 {
            0
        } else {
            n % d + 1
        },
{
    vstd::arithmetic::div_mod::lemma_fundamental_div_mod(n, d);
    vstd::arithmetic::div_mod::lemma_mod_bound(n, d);
    let q = n / d;
    let r = n % d;
    if r == d - 1 {
        assert(n + 1 == (q + 1) * d + 0) by (nonlinear_arith)
            requires
                n == d * q + r,
                r == d - 1,
        ;
        vstd::arithmetic::div_mod::lemma_fundamental_div_mod_converse(n + 1, d, q + 1, 0);
    } else {
        assert(n + 1 == q * d + (r + 1)) by (nonlinear_arith)
            requires
                n == d * q + r,
        ;
        vstd::arithmetic::div_mod::lemma_fundamental_div_mod_converse(n + 1, d, q, r + 1);
    }
}

/// While the flag stays up, the command runs at once and then again after each
/// interval: every run is followed by as many one-second sleeps as the interval
/// has seconds, and by nothing else.
pub proof fn law_one_run_per_interval(mode: Mode, secs: u64, flags: Seq<bool>, k: int)
    requires
        0 <= k < flags.len(),
        forall|i: int| 0 <= i < flags.len() ==> #[trigger] flags[i],
    ensures
        AutoClean::fresh(mode, secs).action(flags, k) == if k % (secs + 1) == 0 {
            LoopAction::Run(mode.command())
        } else {
            LoopAction::SleepOneSecond
        },
{
    let start = AutoClean::fresh(mode, secs);
    lemma_cruising(start, flags.take(k));
    lemma_mod_step(k, secs + 1);
    assert(flags[k]);
}

/// A loop that waits sleeps exactly the seconds that are left, and then runs its
/// command, as long as the flag stays up.
pub proof fn law_waits_out_what_is_left(auto: AutoClean, left: u64, flags: Seq<bool>, k: int)
    requires
        auto.phase == LoopPhase::Waiting(left),
        left > 0,
        0 <= k < flags.len(),
        k <= left,
        forall|i: int| 0 <= i < flags.len() ==> #[trigger] flags[i],
    ensures
        k < left ==> auto.action(flags, k) == LoopAction::SleepOneSecond,
        k == left ==> auto.action(flags, k) == LoopAction::Run(auto.mode.command()),
{
    lemma_waiting(auto, left, flags.take(k));
    assert(flags[k]);
}

proof fn lemma_waiting(auto: AutoClean, left: u64, flags: Seq<bool>)
    requires
        auto.phase == LoopPhase::Waiting(left),
        left > 0,
        flags.len() <= left,
        forall|i: int| 0 <= i < flags.len() ==> #[trigger] flags[i],
    ensures
        auto.after(flags) == auto.waiting(left - flags.len()),
    decreases flags.len(),
{
    if flags.len() > 0 {
        lemma_waiting(auto, left, flags.drop_last());
    }
}

/// A wait that is broken off leads back to the top: if the flag is up again, the
/// loop goes on as if it had just been started.
pub proof fn law_broken_wait_starts_over(auto: AutoClean)
    requires
        auto.phase is Waiting,
    ensures
        auto.next(false).1 == LoopAction::CheckAgain,
        auto.next(false).0 == AutoClean::fresh(auto.mode, auto.secs),
        auto.next(false).0.next(true).1 == LoopAction::Run(auto.mode.command()),
        auto.next(false).0.next(false).1 == LoopAction::Exit,
{
}

/// Once the flag is down, nothing is run and nothing is slept through any more,
/// and the second reading at the latest ends the loop.
pub proof fn law_stops_promptly(auto: AutoClean, flags: Seq<bool>, k: int)
    requires
        0 <= k < flags.len(),
        forall|i: int| 0 <= i < flags.len() ==> !#[trigger] flags[i],
    ensures
        auto.action(flags, k) == LoopAction::CheckAgain || auto.action(flags, k)
            == LoopAction::Exit,
        k >= 1 ==> auto.action(flags, k) == LoopAction::Exit,
        flags.len() >= 2 ==> auto.after(flags).phase == LoopPhase::Stopped,
{
    lemma_flag_down(auto, flags.take(k));
    lemma_flag_down(auto, flags);
    assert(!flags[k]);
}

proof fn lemma_flag_down(auto: AutoClean, flags: Seq<bool>)
    requires
        forall|i: int| 0 <= i < flags.len() ==> !#[trigger] flags[i],
    ensures
        flags.len() >= 1 ==> !(auto.after(flags).phase is Waiting),
        flags.len() >= 2 ==> auto.after(flags).phase == LoopPhase::Stopped,
    decreases flags.len(),
{
    if flags.len() > 0 {
        lemma_flag_down(auto, flags.drop_last());
        assert(!flags.last());
    }
}

/// Whatever the flag reads, the loop keeps the mode and the interval it was
/// started with, and a wait never exceeds the interval.
pub proof fn law_keeps_what_it_was_started_with(auto: AutoClean, flags: Seq<bool>)
    requires
        auto.wf(),
    ensures
        auto.after(flags).mode == auto.mode,
        auto.after(flags).secs == auto.secs,
        auto.after(flags).wf(),
    decreases flags.len(),
{
    if flags.len() > 0 {
        law_keeps_what_it_was_started_with(auto, flags.drop_last());
    }
}

/// The only command a loop ever runs is that of its mode, and it runs it, or
/// sleeps, only when the flag has just been read as up.
pub proof fn law_acts_only_while_the_flag_is_up(auto: AutoClean, flags: Seq<bool>, k: int)
    requires
        auto.wf(),
        0 <= k < flags.len(),
    ensures
        auto.action(flags, k) matches LoopAction::Run(cmd) ==> flags[k] && cmd
            == auto.mode.command(),
        auto.action(flags, k) == LoopAction::SleepOneSecond ==> flags[k],
{
    law_keeps_what_it_was_started_with(auto, flags.take(k));
}

/// A loop that has ended stays ended, even if the flag goes up again.
pub proof fn law_stays_stopped(auto: AutoClean, flags: Seq<bool>)
    requires
        auto.phase == LoopPhase::Stopped,
    ensures
        auto.after(flags) == auto,
        forall|k: int| 0 <= k < flags.len() ==> #[trigger] auto.action(flags, k) == LoopAction::Exit,
    decreases flags.len(),
{
    if flags.len() > 0 {
        law_stays_stopped(auto, flags.drop_last());
    }
    assert forall|k: int| 0 <= k < flags.len() implies #[trigger] auto.action(flags, k)
        == LoopAction::Exit by {
        if k < flags.len() - 1 {
            assert(flags.drop_last().take(k) =~= flags.take(k));
            assert(auto.action(flags.drop_last(), k) == LoopAction::Exit);
        } else {
            assert(flags.take(k) =~= flags.drop_last());
        }
    }
}

} // verus!
