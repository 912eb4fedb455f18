//! The polling scheduler: commands grouped into batches under a character
//! budget, and the rule that decides on each tick whether a cycle runs.

use crate::text::join;
use vstd::prelude::*;

verus! {

/// A list of command names.
pub type Names = Seq<Seq<char>>;

/// Whether `cmd` may join the batch `current`: an empty batch takes any
/// command; otherwise the batch joined with commas, `cmd` included, has to
/// stay within `max_length` characters.
pub open spec fn fits(current: Names, cmd: Seq<char>, max_length: int) -> bool {
    current.len() == 0 || join(current.push(cmd), ',').len() <= max_length
}

/// The batches that are closed, and the batch that is still open, after
/// `commands` were taken in order.
pub open spec fn batch_state(commands: Names, max_length: int) -> (Seq<Names>, Names)
    decreases commands.len(),
{
    if commands.len() == 0 {
        (Seq::empty(), Seq::empty())
    } else {
        let (closed, current) = batch_state(commands.drop_last(), max_length);
        let cmd = commands.last();
        if fits(current, cmd, max_length) {
            (closed, current.push(cmd))
        } else {
            (closed.push(current), seq![cmd])
        }
    }
}

/// The batches of `commands` under the budget `max_length`.
pub open spec fn batch_plan(commands: Names, max_length: int) -> Seq<Names> {
    let (closed, current) = batch_state(commands, max_length);
    if current.len() == 0 {
        closed
    } else {
        closed.push(current)
    }
}

/// The length of a batch joined with commas grows by one separator and the
/// command when a command joins a batch that is not empty.
pub proof fn lemma_join_push(current: Names, cmd: Seq<char>)
    ensures
        join(current.push(cmd), ',').len() == if current.len() == 0 {
            cmd.len()
        } else {
            join(current, ',').len() + 1 + cmd.len()
        },
{
    let next = current.push(cmd);
    assert(next.last() == cmd);
    assert(next.drop_last() =~= current);
}

/// Whether `batch`, joined with commas, stays within `max_length`
/// characters.
pub open spec fn within_budget(batch: Names, max_length: int) -> bool {
    join(batch, ',').len() <= max_length
}

/// What holds of the closed batches and the open one after any list of
/// commands was taken.
proof fn lemma_batch_state(commands: Names, max_length: int)
    ensures
        ({
            let (closed, current) = batch_state(commands, max_length);
            &&& closed.flatten() + current == commands
            &&& forall|k: int| 0 <= k < closed.len() ==> (#[trigger] closed[k]).len() > 0
            &&& commands.len() > 0 ==> current.len() > 0
            &&& (forall|i: int| 0 <= i < commands.len() ==> (#[trigger] commands[i]).len()
                <= max_length) ==> (commands.len() > 0 ==> within_budget(current, max_length))
                && forall|k: int|
                0 <= k < closed.len() ==> within_budget(#[trigger] closed[k], max_length)
            &&& forall|i: int|
                0 <= i < commands.len() && (#[trigger] commands[i]).len() > max_length ==> current
                    == seq![commands[i]] || exists|k: int|
                    0 <= k < closed.len() && #[trigger] closed[k] == seq![commands[i]]
        }),
    decreases commands.len(),
{
    if commands.len() == 0 {
        assert(Seq::<Names>::empty().flatten() + Names::empty() =~= commands);
    } else {
        let earlier = commands.drop_last();
        let cmd = commands.last();
        lemma_batch_state(earlier, max_length);
        let (closed0, current0) = batch_state(earlier, max_length);
        let (closed, current) = batch_state(commands, max_length);
        lemma_join_push(current0, cmd);
        assert(earlier.push(cmd) =~= commands);
        if fits(current0, cmd, max_length) {
            assert(closed0.flatten() + current0.push(cmd) =~= (closed0.flatten()
                + current0).push(cmd));
        } else {
            closed0.lemma_flatten_push(current0);
            assert(closed0.push(current0).flatten() + seq![cmd] =~= (closed0.flatten()
                + current0).push(cmd));
        }
        if forall|i: int| 0 <= i < commands.len() ==> (#[trigger] commands[i]).len() <= max_length {
            assert forall|i: int| 0 <= i < earlier.len() implies (#[trigger] earlier[i]).len()
                <= max_length by {
                assert(earlier[i] == commands[i]);
            }
            assert(cmd == commands[commands.len() - 1]);
            assert(join(seq![cmd], ',') == cmd);
        }
        assert forall|i: int|
            0 <= i < commands.len() && (#[trigger] commands[i]).len() > max_length implies current
            == seq![commands[i]] || exists|k: int|
            0 <= k < closed.len() && #[trigger] closed[k] == seq![commands[i]] by {
            if i < earlier.len() {
                assert(earlier[i] == commands[i]);
                if current0 == seq![commands[i]] {
                    assert(join(current0, ',') == commands[i]);
                    assert(!fits(current0, cmd, max_length));
                    assert(closed[closed0.len() as int] == seq![commands[i]]);
                } else {
                    let k = choose|k: int|
                        0 <= k < closed0.len() && #[trigger] closed0[k] == seq![commands[i]];
                    assert(closed[k] == seq![commands[i]]);
                }
            } else {
                if current0.len() > 0 {
                    assert(!fits(current0, cmd, max_length));
                }
                assert(current =~= seq![cmd]);
            }
        }
    }
}

/// The batches, one after the other, hold exactly the commands in their
/// order, and no batch is empty.
pub proof fn lemma_batches_cover(commands: Names, max_length: int)
    ensures
        batch_plan(commands, max_length).flatten() == commands,
        forall|k: int|
            0 <= k < batch_plan(commands, max_length).len() ==> (#[trigger] batch_plan(
                commands,
                max_length,
            )[k]).len() > 0,
{
    lemma_batch_state(commands, max_length);
    let (closed, current) = batch_state(commands, max_length);
    if current.len() == 0 {
        assert(closed.flatten() + current =~= closed.flatten());
    } else {
        closed.lemma_flatten_push(current);
    }
}

/// Where no command is longer than the budget, every batch joined with
/// commas stays within it.
pub proof fn lemma_batches_within_budget(commands: Names, max_length: int)
    requires
        forall|i: int| 0 <= i < commands.len() ==> (#[trigger] commands[i]).len() <= max_length,
    ensures
        forall|k: int|
            0 <= k < batch_plan(commands, max_length).len() ==> within_budget(
                #[trigger] batch_plan(commands, max_length)[k],
                max_length,
            ),
{
    lemma_batch_state(commands, max_length);
}

/// A command longer than the budget stands in a batch of its own.
pub proof fn lemma_long_command_alone(commands: Names, max_length: int, i: int)
    requires
        0 <= i < commands.len(),
        commands[i].len() > max_length,
    ensures
        exists|k: int|
            0 <= k < batch_plan(commands, max_length).len() && #[trigger] batch_plan(
                commands,
                max_length,
            )[k] == seq![commands[i]],
{
    lemma_batch_state(commands, max_length);
    let (closed, current) = batch_state(commands, max_length);
    let plan = batch_plan(commands, max_length);
    if current == seq![commands[i]] {
        assert(plan[closed.len() as int] == seq![commands[i]]);
    } else {
        let k = choose|k: int| 0 <= k < closed.len() && #[trigger] closed[k] == seq![commands[i]];
        assert(plan[k] == seq![commands[i]]);
    }
}

/// Groups `commands` into batches: a command joins the current batch unless
/// the batch, joined with commas, would then exceed `max_length` characters;
/// a command that is too long by itself still gets a batch of its own.
pub fn batch_commands(commands: &[String], max_length: usize) -> (batches: Vec<Vec<String>>)
    ensures
        batches.deep_view() == batch_plan(commands.deep_view(), max_length as int),
{
    let mut batches: Vec<Vec<String>> = Vec::new();
    let mut current: Vec<String> = Vec::new();
    let mut current_length: usize = 0;
    let n: usize = commands.len();
    let mut i: usize = 0;
    assert(commands.deep_view().take(0) =~= Names::empty());
    assert(batches.deep_view() =~= Seq::<Names>::empty());
    assert(current.deep_view() =~= Names::empty());
    while i < n
        invariant
            i <= n == commands@.len(),
            (batches.deep_view(), current.deep_view()) == batch_state(
                commands.deep_view().take(i as int),
                max_length as int,
            ),
            current_length == join(current.deep_view(), ',').len(),
        decreases n - i,
    {
        let cmd: &String = &commands[i];
        let len: usize = cmd.as_str().unicode_len();
        proof {
            let all = commands.deep_view();
            assert(all.take(i + 1).drop_last() =~= all.take(i as int));
            assert(all.take(i + 1).last() == cmd@);
            lemma_join_push(current.deep_view(), cmd@);
        }
        let ghost closed_before = batches.deep_view();
        let ghost current_before = current.deep_view();
        let joins: bool = current.len() == 0 || (len <= max_length && current_length < max_length
            - len);
        if !joins {
            batches.push(current);
            current = Vec::new();
            assert(batches.deep_view() =~= closed_before.push(current_before));
            current.push(cmd.clone());
            assert(current.deep_view() =~= seq![cmd@]);
            current_length = len;
        } else {
            current_length = if current.len() == 0 {
                len
            } else {
                current_length + 1 + len
            };
            current.push(cmd.clone());
            assert(current.deep_view() =~= current_before.push(cmd@));
        }
        i = i + 1;
    }
    assert(commands.deep_view().take(n as int) =~= commands.deep_view());
    if current.len() > 0 {
        let ghost closed_before = batches.deep_view();
        let ghost current_before = current.deep_view();
        batches.push(current);
        assert(batches.deep_view() =~= closed_before.push(current_before));
    }
    batches
}

/// When the tick after one that fired at `now` is due, for a ticker whose
/// tick was due at `due` and whose ticks are `period` apart: at the first
/// time after `now` that lies a whole number of periods after `due`. Ticks
/// that were missed in between are skipped, not made up for.
pub open spec fn next_due(due: int, now: int, period: int) -> int {
    due + ((now - due) / period + 1) * period
}

/// Fires ticks at a fixed period, on a clock that counts milliseconds, and
/// skips the ticks it missed.
#[derive(Clone, Copy, Debug)]
pub struct Ticker {
    period_ms: u64,
    due_ms: u64,
}

impl Ticker {
    #[verifier::type_invariant]
    spec fn inv(self) -> bool {
        self.period_ms > 0
    }

    /// The milliseconds between two ticks.
    pub closed spec fn period(&self) -> int {
        self.period_ms as int
    }

    /// The time at which the next tick is due.
    pub closed spec fn due(&self) -> int {
        self.due_ms as int
    }

    /// A ticker with ticks `period_ms` apart, whose first tick is due at
    /// once. The period is not zero.
    pub fn new(period_ms: u64, now_ms: u64) -> (r: Ticker)
        requires
            period_ms > 0,
        ensures
            r.period() == period_ms,
            r.due() == now_ms,
    {
        Ticker { period_ms, due_ms: now_ms }
    }

    /// How long to wait at `now_ms` until the next tick is due.
    pub fn wait_ms(&self, now_ms: u64) -> (r: u64)
        ensures
            r == (if now_ms >= self.due() {
                0
            } else {
                self.due() - now_ms
            }),
    {
        if now_ms >= self.due_ms {
            0
        } else {
            self.due_ms - now_ms
        }
    }

    /// Fires the tick that is due and says when the next one is: missed
    /// ticks are skipped. At a time at which no tick is due nothing fires.
    /// A time that no longer fits the clock is held at the clock's end.
    pub fn fire(&mut self, now_ms: u64) -> (fired: bool)
        ensures
            fired == (now_ms >= old(self).due()),
            final(self).period() == old(self).period(),
            final(self).due() == (if !fired {
                old(self).due()
            } else if next_due(old(self).due(), now_ms as int, old(self).period()) <= u64::MAX {
                next_due(old(self).due(), now_ms as int, old(self).period())
            } else {
                u64::MAX as int
            }),
    {
        proof {
            use_type_invariant(&*self);
        }
        if now_ms < self.due_ms {
            return false;
        }
        let period: u64 = self.period_ms;
        let due: u64 = self.due_ms;
        let behind: u64 = now_ms - due;
        let into_period: u64 = behind % period;
        let step: u64 = period - into_period;
        proof {
            lemma_next_due(due as int, now_ms as int, period as int);
        }
        let next: u64 = if now_ms > u64::MAX - step {
            u64::MAX
        } else {
            now_ms + step
        };
        *self = Ticker { period_ms: period, due_ms: next };
        true
    }
}

/// The next tick is due one period after the last whole period that has
/// passed since the tick that fired was due.
pub proof fn lemma_next_due(due: int, now: int, period: int)
    requires
        due <= now,
        period > 0,
    ensures
        next_due(due, now, period) == now + (period - (now - due) % period),
{
    let behind = now - due;
    vstd::arithmetic::div_mod::lemma_fundamental_div_mod(behind, period);
    assert((behind / period + 1) * period == (behind / period) * period + period)
        by (nonlinear_arith);
    assert(period * (behind / period) == (behind / period) * period) by (nonlinear_arith);
}

/// After a stall of any length exactly one tick fires: once the tick that
/// was due has fired, none is due at the same time; the next one is due
/// within one period, and on the beat of the ticks before it.
pub proof fn lemma_no_burst(due: int, now: int, period: int)
    requires
        due <= now,
        period > 0,
    ensures
        now < next_due(due, now, period) <= now + period,
        (next_due(due, now, period) - due) % period == 0,
{
    lemma_next_due(due, now, period);
    let behind = now - due;
    vstd::arithmetic::div_mod::lemma_mod_pos_bound(behind, period);
    vstd::arithmetic::div_mod::lemma_mod_multiples_basic(behind / period + 1, period);
}

/// What the scheduler does on a tick.
#[derive(Clone, Copy, Debug, PartialEq, Eq, Structural)]
pub enum Tick {
    /// The broker is out of reach: no command is executed. `announce` is set
    /// on the first such tick, when a warning is due.
    Skip { announce: bool },
    /// One cycle runs: every batch of the plan, in order. `resumed` is set
    /// on the first cycle after ticks were skipped, when a note is due.
    Run { resumed: bool },
}

/// What a tick does, and whether ticks are being skipped after it, given
/// whether they were being skipped before it and whether the broker is
/// connected.
pub open spec fn tick(was_disconnected: bool, connected: bool) -> (bool, Tick) {
    if connected {
        (false, Tick::Run { resumed: was_disconnected })
    } else {
        (true, Tick::Skip { announce: !was_disconnected })
    }
}

/// How many cycles run on a series of ticks, given the connectivity flag
/// that each tick reads.
pub open spec fn cycles(was_disconnected: bool, flags: Seq<bool>) -> nat
    decreases flags.len(),
{
    if flags.len() == 0 {
        0
    } else {
        let (skipping, action) = tick(was_disconnected, flags.first());
        (if action is Run {
            1nat
        } else {
            0nat
        }) + cycles(skipping, flags.drop_first())
    }
}

/// While the connectivity flag is false no cycle runs, however many ticks
/// pass; and on the first tick that reads it as true, exactly one cycle
/// runs.
pub proof fn lemma_gating(was_disconnected: bool, flags: Seq<bool>)
    requires
        forall|i: int| 0 <= i < flags.len() ==> !flags[i],
    ensures
        cycles(was_disconnected, flags) == 0,
        cycles(was_disconnected, flags.push(true)) == 1,
    decreases flags.len(),
{
    let longer = flags.push(true);
    if flags.len() == 0 {
        assert(longer.first());
        assert(longer.drop_first() =~= Seq::<bool>::empty());
        assert(cycles(false, longer.drop_first()) == 0);
    } else {
        assert(!flags[0]);
        assert(longer.first() == flags[0]);
        assert(longer.drop_first() =~= flags.drop_first().push(true));
        lemma_gating(true, flags.drop_first());
    }
}

/// The polling scheduler: the plan of batches, fixed when it is made, and
/// whether ticks are being skipped.
#[derive(Debug)]
pub struct Scheduler {
    batches: Vec<Vec<String>>,
    was_disconnected: bool,
}

impl Scheduler {
    /// The batches of the plan.
    pub closed spec fn plan(&self) -> Seq<Names> {
        self.batches.deep_view()
    }

    /// Whether the last tick was skipped.
    pub closed spec fn skipping(&self) -> bool {
        self.was_disconnected
    }

    /// The scheduler for `commands` under the budget `max_length`.
    pub fn new(commands: &[String], max_length: usize) -> (r: Scheduler)
        ensures
            r.plan() == batch_plan(commands.deep_view(), max_length as int),
            !r.skipping(),
    {
        Scheduler { batches: batch_commands(commands, max_length), was_disconnected: false }
    }

    /// The batches of the plan, in the order in which a cycle executes them.
    pub fn batches(&self) -> (r: &Vec<Vec<String>>)
        ensures
            r.deep_view() == self.plan(),
    {
        &self.batches
    }

    /// Decides what is done on a tick, given the connectivity flag as read
    /// on that tick.
    pub fn on_tick(&mut self, connected: bool) -> (action: Tick)
        ensures
            (final(self).skipping(), action) == tick(old(self).skipping(), connected),
            final(self).plan() == old(self).plan(),
    {
        let was: bool = self.was_disconnected;
        self.was_disconnected = !connected;
        if connected {
            Tick::Run { resumed: was }
        } else {
            Tick::Skip { announce: !was }
        }
    }
}

} // verus!
