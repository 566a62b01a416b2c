use crate::command::{Command, Entry};
use crate::signal::{delivered_of, flips, Flags, Signal, Slot};
use std::collections::VecDeque;
use vstd::prelude::*;

verus! {

/// The saved marker once the entries from `len` on are gone: a marker past
/// them can no longer be reached.
pub open spec fn saved_within(saved: Option<nat>, len: nat) -> Option<nat> {
    match saved {
        Some(s) => if s <= len { Some(s) } else { None },
        None => None,
    }
}

/// The saved marker once the oldest entry is evicted: every position moves
/// down by one, and a marker on the evicted state is lost.
pub open spec fn saved_shifted(saved: Option<nat>) -> Option<nat> {
    match saved {
        Some(s) => if s == 0 { None } else { Some((s - 1) as nat) },
        None => None,
    }
}

/// What a timeline holds: its entries, the cursor (how many entries are
/// applied, counted from the oldest), the saved marker, and the capacity.
pub struct TimelineView<C> {
    pub entries: Seq<Entry<C>>,
    pub current: nat,
    pub saved: Option<nat>,
    pub limit: nat,
}

impl<C> TimelineView<C> {
    pub open spec fn wf(self) -> bool {
        &&& 0 < self.limit
        &&& self.current <= self.entries.len() <= self.limit
        &&& (self.saved matches Some(s) ==> s <= self.entries.len())
        &&& forall|i: int, j: int|
            0 <= i <= j < self.entries.len() ==> #[trigger] self.entries[i].timestamp
                <= #[trigger] self.entries[j].timestamp
    }

    pub open spec fn can_undo(self) -> bool {
        self.current > 0
    }

    pub open spec fn can_redo(self) -> bool {
        self.current < self.entries.len()
    }

    pub open spec fn is_saved(self) -> bool {
        self.saved == Some(self.current)
    }

    /// The flags that signals report.
    pub open spec fn flags(self) -> Flags {
        (self.can_undo(), self.can_redo(), self.is_saved())
    }

    /// The timeline after recording `e` as a new entry: the entries from the
    /// cursor on are dropped, the oldest entry is evicted when the timeline is
    /// full, and the cursor ends after `e`.
    pub open spec fn push_entry(self, e: Entry<C>) -> TimelineView<C> {
        let kept = self.entries.take(self.current as int);
        let saved = saved_within(self.saved, self.current);
        if self.current < self.limit {
            TimelineView { entries: kept.push(e), current: self.current + 1, saved, limit: self.limit }
        } else {
            TimelineView {
                entries: kept.skip(1).push(e),
                current: self.current,
                saved: saved_shifted(saved),
                limit: self.limit,
            }
        }
    }

    /// `n` is this timeline after a new operation was absorbed by the entry
    /// just before the cursor: the entries after it are dropped.
    pub open spec fn merged_into_last(self, n: TimelineView<C>) -> bool {
        &&& 0 < self.current
        &&& !self.is_saved()
        &&& n.limit == self.limit
        &&& n.current == self.current
        &&& n.entries.len() == self.current
        &&& n.entries.take(self.current - 1) == self.entries.take(self.current - 1)
        &&& n.saved == saved_within(self.saved, self.current)
    }

    /// `n` is this timeline after a successful apply.
    pub open spec fn applied(self, n: TimelineView<C>) -> bool {
        ||| self.merged_into_last(n)
        ||| (n.entries.len() > 0 && n == self.push_entry(n.entries.last()))
    }

    /// `n` holds the same entries, saved marker and capacity as this
    /// timeline; only the cursor may differ.
    pub open spec fn same_entries(self, n: TimelineView<C>) -> bool {
        &&& n.entries == self.entries
        &&& n.saved == self.saved
        &&& n.limit == self.limit
    }

    /// `n` is this timeline with the cursor moved back by one.
    pub open spec fn undone(self, n: TimelineView<C>) -> bool {
        &&& self.same_entries(n)
        &&& n.current == self.current - 1
    }

    /// `n` is this timeline with the cursor moved forward by one.
    pub open spec fn redone(self, n: TimelineView<C>) -> bool {
        &&& self.same_entries(n)
        &&& n.current == self.current + 1
    }

    /// `i` is the position at time `to`: all entries before it were recorded
    /// at or before `to`, and the one at it, if any, after.
    pub open spec fn position_at(self, to: i64, i: nat) -> bool {
        &&& i <= self.entries.len()
        &&& forall|j: int| 0 <= j < i ==> #[trigger] self.entries[j].timestamp <= to
        &&& i < self.entries.len() ==> self.entries[i as int].timestamp > to
    }
}

impl<C> TimelineView<C> {
    /// This timeline after recording each of `es`, oldest first, with no
    /// entry absorbing the next.
    pub open spec fn push_all(self, es: Seq<Entry<C>>) -> TimelineView<C>
        decreases es.len(),
    {
        if es.len() == 0 {
            self
        } else {
            self.push_all(es.drop_last()).push_entry(es.last())
        }
    }
}

impl<C: Command> TimelineView<C> {
    /// Whether `apply` hands `command` to the entry before the cursor to be
    /// absorbed, and it accepts.
    pub open spec fn absorbs(self, command: C) -> bool {
        &&& 0 < self.current
        &&& !self.is_saved()
        &&& self.entries[self.current - 1].command.absorbs(command)
    }

    /// `n` is this timeline after `command` was applied successfully: the
    /// entry before the cursor absorbed it, keeping its timestamp, or else it
    /// was recorded as a new entry, stamped no earlier than the entry before
    /// it.
    pub open spec fn recorded(self, command: C, n: TimelineView<C>) -> bool {
        if self.absorbs(command) {
            &&& self.merged_into_last(n)
            &&& n.entries.last().timestamp == self.entries[self.current - 1].timestamp
        } else {
            &&& n.entries.len() > 0
            &&& n == self.push_entry(Entry { command, timestamp: n.entries.last().timestamp })
            &&& (0 < self.current ==> self.entries[self.current - 1].timestamp
                <= n.entries.last().timestamp)
        }
    }

    /// `n` is this timeline after an apply that recorded a new entry and took
    /// the target from `t0` to `t1`: undoing that entry takes it back to `t0`.
    pub open spec fn pushed_to(
        self,
        t0: <C::Target as View>::V,
        n: TimelineView<C>,
        t1: <C::Target as View>::V,
    ) -> bool {
        &&& n.entries.len() > 0
        &&& n == self.push_entry(n.entries.last())
        &&& n.entries.last().command.undo_view(t1) == t0
    }

    /// `n` is this timeline after an apply that the entry before the cursor
    /// absorbed, which took the target from `t0` to `t1`: undoing that entry
    /// now undoes both.
    pub open spec fn merged_to(
        self,
        t0: <C::Target as View>::V,
        n: TimelineView<C>,
        t1: <C::Target as View>::V,
    ) -> bool {
        &&& self.merged_into_last(n)
        &&& n.entries.last().command.undo_view(t1) == self.entries[self.current - 1].command.undo_view(
            t0,
        )
    }

    /// `n` is this timeline after an undo that took the target from `t0` to
    /// `t1`.
    pub open spec fn undone_to(
        self,
        t0: <C::Target as View>::V,
        n: TimelineView<C>,
        t1: <C::Target as View>::V,
    ) -> bool {
        &&& self.undone(n)
        &&& t1 == self.entries[self.current - 1].command.undo_view(t0)
    }

    /// `n` is this timeline after a redo that took the target from `t0` to
    /// `t1`: the entry at the cursor was applied again.
    pub open spec fn redone_to(
        self,
        t0: <C::Target as View>::V,
        n: TimelineView<C>,
        t1: <C::Target as View>::V,
    ) -> bool {
        &&& self.redone(n)
        &&& t1 == self.entries[self.current as int].command.apply_view(t0)
    }
}

/// The target's view after the entries from `from - 1` down to `to` are
/// undone, newest first, starting from `t`.
pub open spec fn undo_chain<C: Command>(
    entries: Seq<Entry<C>>,
    from: nat,
    to: nat,
    t: <C::Target as View>::V,
) -> <C::Target as View>::V
    decreases from - to,
{
    if from <= to {
        t
    } else {
        entries[to as int].command.undo_view(undo_chain(entries, from, to + 1, t))
    }
}

/// The target's view after the entries from `from` up to `to - 1` are
/// applied, oldest first, starting from `t`.
pub open spec fn redo_chain<C: Command>(
    entries: Seq<Entry<C>>,
    from: nat,
    to: nat,
    t: <C::Target as View>::V,
) -> <C::Target as View>::V
    decreases to - from,
{
    if to <= from {
        t
    } else {
        entries[to - 1].command.apply_view(redo_chain(entries, from, (to - 1) as nat, t))
    }
}

/// Step `i` of `vs` and `ts` is an apply that recorded a new entry.
pub open spec fn step_pushed<C: Command>(
    vs: Seq<TimelineView<C>>,
    ts: Seq<<C::Target as View>::V>,
    i: int,
) -> bool {
    vs[i].pushed_to(ts[i], vs[i + 1], ts[i + 1])
}

/// Step `i` of `vs` and `ts` is an undo.
pub open spec fn step_undone<C: Command>(
    vs: Seq<TimelineView<C>>,
    ts: Seq<<C::Target as View>::V>,
    i: int,
) -> bool {
    vs[i].undone_to(ts[i], vs[i + 1], ts[i + 1])
}

/// Applying `k` operations that each record a new entry, with room for all of
/// them, and then undoing `k` times, gives back the target as it was before
/// the first, and the cursor and the entries before it as they were.
/// `vs` and `ts` are the timeline and the target's view after each step.
pub proof fn lemma_applies_then_undos<C: Command>(
    vs: Seq<TimelineView<C>>,
    ts: Seq<<C::Target as View>::V>,
    k: nat,
)
    requires
        vs.len() == 2 * k + 1,
        ts.len() == 2 * k + 1,
        vs[0].current <= vs[0].entries.len(),
        vs[0].current + k <= vs[0].limit,
        forall|i: int| 0 <= i < k ==> #[trigger] step_pushed(vs, ts, i),
        forall|i: int| k <= i < 2 * k ==> #[trigger] step_undone(vs, ts, i),
    ensures
        ts[2 * k as int] == ts[0],
        vs[2 * k as int].current <= vs[2 * k as int].entries.len(),
        vs[2 * k as int].current == vs[0].current,
        vs[2 * k as int].entries.take(vs[0].current as int) == vs[0].entries.take(
            vs[0].current as int,
        ),
    decreases k,
{
    if k > 0 {
        let c0 = vs[0].current;
        let ivs = vs.subrange(1, 2 * k as int);
        let its = ts.subrange(1, 2 * k as int);
        let k1 = (k - 1) as nat;
        assert(step_pushed(vs, ts, 0));
        let v1 = vs[1];
        assert(v1.entries =~= vs[0].entries.take(c0 as int).push(v1.entries.last()));
        assert forall|i: int| 0 <= i < k1 implies #[trigger] step_pushed(ivs, its, i) by {
            assert(step_pushed(vs, ts, i + 1));
        }
        assert forall|i: int| k1 <= i < 2 * k1 implies #[trigger] step_undone(ivs, its, i) by {
            assert(step_undone(vs, ts, i + 1));
        }
        lemma_applies_then_undos(ivs, its, k1);
        let last = 2 * k - 1;
        assert(step_undone(vs, ts, last as int));
        assert(ivs[2 * k1 as int] == vs[last]);
        let c1 = v1.current;
        assert(vs[last].entries[c1 - 1] == vs[last].entries.take(c1 as int)[c1 - 1]);
        assert(vs[last + 1].entries.take(c0 as int) =~= vs[last].entries.take(c1 as int).take(
            c0 as int,
        ));
        assert(vs[0].entries.take(c0 as int) =~= v1.entries.take(c1 as int).take(c0 as int));
    }
}

/// After a successful apply there is nothing to redo: the cursor is at the
/// last entry.
pub proof fn lemma_apply_leaves_nothing_to_redo<C>(o: TimelineView<C>, n: TimelineView<C>)
    requires
        o.wf(),
        o.applied(n),
    ensures
        !n.can_redo(),
        n.current == n.entries.len(),
{
}

/// A successful apply drops every entry from the cursor on: at most one entry
/// stands past the old cursor afterwards (the new one), the entries before
/// the cursor stay, but for the one that absorbed the new operation, or the
/// oldest when it was evicted, and none is left to redo.
pub proof fn lemma_apply_drops_redo_tail<C>(o: TimelineView<C>, n: TimelineView<C>)
    requires
        o.wf(),
        o.applied(n),
    ensures
        n.entries.len() <= o.current + 1,
        !n.can_redo(),
        o.merged_into_last(n) ==> n.entries.take(o.current - 1) == o.entries.take(o.current - 1),
        !o.merged_into_last(n) && o.current < o.limit ==> n.entries.take(o.current as int)
            == o.entries.take(o.current as int),
        !o.merged_into_last(n) && o.current == o.limit ==> n.entries.take(o.current - 1)
            == o.entries.subrange(1, o.current as int),
{
    if !o.merged_into_last(n) {
        let kept = o.entries.take(o.current as int);
        if o.current < o.limit {
            assert(n.entries.take(o.current as int) =~= kept);
        } else {
            assert(n.entries.take(o.current - 1) =~= o.entries.subrange(1, o.current as int));
        }
    }
}

/// Recording operations that no entry absorbs into an empty timeline keeps
/// the newest `limit` of them: after `limit + k` the oldest `k` are evicted.
pub proof fn lemma_pushes_evict_oldest<C>(v: TimelineView<C>, es: Seq<Entry<C>>)
    requires
        v.wf(),
        v.entries.len() == 0,
    ensures
        v.push_all(es).limit == v.limit,
        v.push_all(es).current == v.push_all(es).entries.len(),
        es.len() <= v.limit ==> v.push_all(es).entries == es,
        es.len() >= v.limit ==> v.push_all(es).entries == es.skip(es.len() - v.limit),
        v.push_all(es).entries.len() == if es.len() <= v.limit { es.len() } else { v.limit },
    decreases es.len(),
{
    if es.len() > 0 {
        let d = es.drop_last();
        lemma_pushes_evict_oldest(v, d);
        let w = v.push_all(d);
        assert(w.entries.take(w.current as int) =~= w.entries);
        if d.len() < v.limit {
            assert(w.entries.push(es.last()) =~= es);
        } else {
            assert(w.entries.skip(1).push(es.last()) =~= es.skip(es.len() - v.limit));
        }
    }
}

/// A timeline in its saved state returns to it when an applied operation is
/// undone.
pub proof fn lemma_saved_survives_apply_undo<C>(
    s: TimelineView<C>,
    a: TimelineView<C>,
    u: TimelineView<C>,
)
    requires
        s.wf(),
        s.is_saved(),
        s.applied(a),
        a.undone(u),
    ensures
        u.is_saved(),
{
}

/// The outcome of moving the cursor of `o` towards `index` one step at a
/// time, with the target going from `t0` to `t1`, which gave `n` and `r`.
/// Every step before the last one succeeded, and the target is what those
/// steps made of it. The search stops at `index`, or at the first step that
/// failed, whose error is `r`'s.
pub open spec fn went_to<C: Command>(
    o: TimelineView<C>,
    t0: <C::Target as View>::V,
    n: TimelineView<C>,
    t1: <C::Target as View>::V,
    index: nat,
    r: Option<Result<(), C::Error>>,
) -> bool {
    &&& r is None <==> index > o.entries.len()
    &&& o.same_entries(n)
    &&& (r is None ==> n == o && t1 == t0)
    &&& (r is Some ==> (r matches Some(Ok(_)) <==> n.current == index))
    &&& (r is Some && index <= o.current ==> {
        &&& index <= n.current <= o.current
        &&& t1 == undo_chain(o.entries, o.current, n.current, t0)
        &&& forall|j: nat|
            n.current < j <= o.current ==> (#[trigger] o.entries[j - 1].command.undo_result(
                undo_chain(o.entries, o.current, j, t0),
            )) is Ok
        &&& r matches Some(Err(e)) ==> o.entries[n.current - 1].command.undo_result(t1) == Err::<
            C::Output,
            C::Error,
        >(e)
    })
    &&& (r is Some && index > o.current ==> {
        &&& o.current <= n.current <= index
        &&& t1 == redo_chain(o.entries, o.current, n.current, t0)
        &&& forall|j: nat|
            o.current <= j < n.current ==> (#[trigger] o.entries[j as int].command.apply_result(
                redo_chain(o.entries, o.current, j, t0),
            )) is Ok
        &&& r matches Some(Err(e)) ==> o.entries[n.current as int].command.apply_result(t1) == Err::<
            C::Output,
            C::Error,
        >(e)
    })
}

#[verifier::external_type_specification]
#[verifier::external_body]
pub struct ExSystemTime(std::time::SystemTime);

#[verifier::external_type_specification]
#[verifier::external_body]
pub struct ExSystemTimeError(std::time::SystemTimeError);

/// Relies on `SystemTime::now`: the system clock now. Nothing is assumed of
/// it.
#[verifier::external_body]
fn system_now() -> std::time::SystemTime {
    std::time::SystemTime::now()
}

/// Relies on `SystemTime::duration_since`: the time from the Unix epoch to
/// `t`, or an error when `t` is earlier. Nothing is assumed of which.
#[verifier::external_body]
fn since_epoch(t: &std::time::SystemTime) -> Result<
    core::time::Duration,
    std::time::SystemTimeError,
> {
    t.duration_since(std::time::UNIX_EPOCH)
}

/// Relies on `Duration::as_millis`: the whole milliseconds in `d`. Nothing
/// is assumed of the value.
#[verifier::external_body]
fn duration_millis(d: &core::time::Duration) -> u128 {
    d.as_millis()
}

/// The time now, in milliseconds since the Unix epoch: 0 for a clock set
/// before the epoch, and `i64::MAX` past what an `i64` holds.
fn now_millis() -> (r: i64)
    ensures
        r >= 0,
{
    match since_epoch(&system_now()) {
        Ok(d) => {
            let ms = duration_millis(&d);
            if ms > i64::MAX as u128 {
                i64::MAX
            } else {
                ms as i64
            }
        },
        Err(_) => 0,
    }
}

/// Relies on the operation's `ToString`, which is the caller's own code:
/// nothing is assumed of the text.
#[verifier::external_body]
fn text_of<C: ToString>(c: &C) -> String {
    c.to_string()
}

/// The capacity of a timeline that is not given one.
pub const DEFAULT_LIMIT: usize = 32;

/// A bounded history of operations with a cursor and a saved marker.
#[derive(Clone)]
pub struct Timeline<C, F = fn(Signal)> {
    entries: VecDeque<Entry<C>>,
    limit: usize,
    current: usize,
    saved: Option<usize>,
    slot: Slot<F>,
}

impl<C, F> View for Timeline<C, F> {
    type V = TimelineView<C>;

    closed spec fn view(&self) -> TimelineView<C> {
        TimelineView {
            entries: self.entries@,
            current: self.current as nat,
            saved: match self.saved {
                Some(s) => Some(s as nat),
                None => None,
            },
            limit: self.limit as nat,
        }
    }
}

impl<C, F> Timeline<C, F> {
    /// An empty timeline in the saved state, with the default capacity and
    /// no callback.
    pub fn new() -> (t: Timeline<C, F>)
        ensures
            t.inv(),
            t@.entries.len() == 0,
            t@.current == 0,
            t@.saved == Some(0nat),
            t@.limit == DEFAULT_LIMIT,
            t.callback() is None,
    {
        Builder::new().build()
    }

    pub open spec fn inv(&self) -> bool {
        self@.wf()
    }

    /// The callback for signals, if one is connected.
    pub closed spec fn callback(&self) -> Option<F> {
        self.slot.callback()
    }

    /// Whether a callback for signals is connected.
    pub open spec fn connected(&self) -> bool {
        self.callback() is Some
    }

    /// Every signal handed to a callback so far, oldest first.
    pub closed spec fn signals(&self) -> Seq<Signal> {
        self.slot.delivered()
    }

    /// `n` is this timeline after a step that signalled each flag it changed,
    /// once, and nothing else.
    pub open spec fn signalled(&self, n: Self) -> bool {
        &&& n.connected() == self.connected()
        &&& n.signals() == self.signals() + delivered_of(
            self.connected(),
            flips(self@.flags(), n@.flags()),
        )
    }

    pub fn len(&self) -> (r: usize)
        ensures
            r == self@.entries.len(),
    {
        self.entries.len()
    }

    pub fn is_empty(&self) -> (r: bool)
        ensures
            r == (self@.entries.len() == 0),
    {
        self.entries.len() == 0
    }

    /// The capacity: how many entries the timeline keeps at most.
    pub fn limit(&self) -> (r: usize)
        ensures
            r == self@.limit,
    {
        self.limit
    }

    /// Connects `slot` as the callback for signals, and returns the one it
    /// replaces.
    pub fn connect(&mut self, slot: F) -> (prev: Option<F>)
        ensures
            final(self)@ == old(self)@,
            final(self).callback() == Some(slot),
            final(self).signals() == old(self).signals(),
            prev == old(self).callback(),
    {
        self.slot.replace(slot)
    }

    /// Disconnects the callback for signals, and returns it.
    pub fn disconnect(&mut self) -> (prev: Option<F>)
        ensures
            final(self)@ == old(self)@,
            final(self).callback() is None,
            final(self).signals() == old(self).signals(),
            prev == old(self).callback(),
    {
        self.slot.take()
    }

    pub fn can_undo(&self) -> (r: bool)
        ensures
            r == self@.can_undo(),
    {
        self.current > 0
    }

    pub fn can_redo(&self) -> (r: bool)
        ensures
            r == self@.can_redo(),
    {
        self.current < self.entries.len()
    }

    pub fn is_saved(&self) -> (r: bool)
        ensures
            r == self@.is_saved(),
    {
        match self.saved {
            Some(s) => s == self.current,
            None => false,
        }
    }

    pub fn current(&self) -> (r: usize)
        ensures
            r == self@.current,
    {
        self.current
    }
}


impl<C: Command, F: FnMut(Signal)> Timeline<C, F> {
    /// Emits a signal for each flag that differs from the value given.
    fn emit_changes(&mut self, could_undo: bool, could_redo: bool, was_saved: bool)
        ensures
            final(self)@ == old(self)@,
            final(self).connected() == old(self).connected(),
            final(self).signals() == old(self).signals() + delivered_of(
                old(self).connected(),
                flips((could_undo, could_redo, was_saved), old(self)@.flags()),
            ),
    {
        let can_undo = self.can_undo();
        let can_redo = self.can_redo();
        let is_saved = self.is_saved();
        self.slot.emit_if(could_undo != can_undo, Signal::Undo(can_undo));
        self.slot.emit_if(could_redo != can_redo, Signal::Redo(can_redo));
        self.slot.emit_if(was_saved != is_saved, Signal::Saved(is_saved));
        assert(self.signals() =~= old(self).signals() + delivered_of(
            old(self).connected(),
            flips((could_undo, could_redo, was_saved), old(self)@.flags()),
        ));
    }

    /// Applies `command` to `target` and records it, stamped with the system
    /// clock.
    ///
    /// The entries from the cursor on are dropped. The command is then
    /// absorbed by the entry just before the cursor if that entry accepts it
    /// and the timeline is not in the saved state; else it is appended, and
    /// the oldest entry is evicted if the timeline is full. On an error
    /// nothing is recorded and the command's error is returned.
    pub fn apply(&mut self, target: &mut C::Target, command: C) -> (r: Result<C::Output, C::Error>)
        requires
            old(self).inv(),
        ensures
            final(self).inv(),
            r == command.apply_result(old(target)@),
            r is Ok ==> final(target)@ == command.apply_view(old(target)@),
            r is Ok ==> old(self)@.recorded(command, final(self)@),
            r is Ok ==> old(self)@.applied(final(self)@) && old(self).signalled(*final(self)),
            r is Ok ==> old(self)@.pushed_to(old(target)@, final(self)@, final(target)@)
                || old(self)@.merged_to(old(target)@, final(self)@, final(target)@),
            r is Err ==> final(self)@ == old(self)@ && *final(target) == *old(target)
                && final(self).signals() == old(self).signals() && final(self).connected()
                == old(self).connected(),
    {
        let now = now_millis();
        self.apply_at(target, command, now)
    }

    /// Applies `command` to `target` and records it as done at time `now`
    /// (milliseconds since the Unix epoch), or at the time of the entry
    /// before it if that is later.
    ///
    /// The entries from the cursor on are dropped. The command is then
    /// absorbed by the entry just before the cursor if that entry accepts it
    /// and the timeline is not in the saved state; else it is appended, and
    /// the oldest entry is evicted if the timeline is full. On an error
    /// nothing is recorded and the command's error is returned.
    pub fn apply_at(&mut self, target: &mut C::Target, command: C, now: i64) -> (r: Result<
        C::Output,
        C::Error,
    >)
        requires
            old(self).inv(),
        ensures
            final(self).inv(),
            r == command.apply_result(old(target)@),
            r is Ok ==> final(target)@ == command.apply_view(old(target)@),
            r is Ok ==> old(self)@.recorded(command, final(self)@),
            r is Ok && !old(self)@.absorbs(command) ==> final(self)@.entries.last().timestamp == (
            if old(self)@.current > 0 && old(self)@.entries[old(self)@.current - 1].timestamp > now {
                old(self)@.entries[old(self)@.current - 1].timestamp
            } else {
                now
            }),
            r is Ok ==> old(self)@.applied(final(self)@) && old(self).signalled(*final(self)),
            r is Ok ==> old(self)@.pushed_to(old(target)@, final(self)@, final(target)@)
                || old(self)@.merged_to(old(target)@, final(self)@, final(target)@),
            r is Err ==> final(self)@ == old(self)@ && *final(target) == *old(target)
                && final(self).signals() == old(self).signals() && final(self).connected()
                == old(self).connected(),
    {
        let ghost c0 = command;
        let mut command = command;
        let out = match command.apply(target) {
            Ok(o) => o,
            Err(e) => {
                return Err(e);
            },
        };
        let ghost o = self@;
        let could_undo = self.can_undo();
        let could_redo = self.can_redo();
        let was_saved = self.is_saved();
        let current = self.current;
        self.entries.truncate(current);
        match self.saved {
            Some(s) => {
                if s > current {
                    self.saved = None;
                }
            },
            None => {},
        }
        assert(self@.entries == o.entries.take(current as int));
        assert(self@.saved == saved_within(o.saved, current as nat));
        let mut merged = false;
        if current > 0 && !was_saved {
            let mut last = self.entries.pop_back().unwrap();
            assert(last == o.entries[current - 1]);
            merged = last.command.merge(&command);
            self.entries.push_back(last);
            assert(self@.entries.take(current - 1) =~= o.entries.take(current - 1));
            if !merged {
                assert(self@.entries =~= o.entries.take(current as int));
            }
        }
        if !merged {
            let ghost before = self@;
            let mut stamp = now;
            if current > 0 && self.entries[current - 1].timestamp > stamp {
                stamp = self.entries[current - 1].timestamp;
            }
            if current == self.limit {
                self.entries.pop_front();
                self.current = current - 1;
                self.saved = match self.saved {
                    Some(s) => if s == 0 { None } else { Some(s - 1) },
                    None => None,
                };
                assert(self@.entries =~= before.entries.skip(1));
            }
            let e = Entry { command, timestamp: stamp };
            self.entries.push_back(e);
            self.current = self.current + 1;
            assert(self@ =~= o.push_entry(e));
        }
        self.emit_changes(could_undo, could_redo, was_saved);
        Ok(out)
    }

    /// Undoes the entry before the cursor, without signals.
    fn undo_step(&mut self, target: &mut C::Target) -> (r: Result<C::Output, C::Error>)
        requires
            old(self).inv(),
            old(self)@.can_undo(),
        ensures
            final(self).inv(),
            final(self).signals() == old(self).signals(),
            final(self).connected() == old(self).connected(),
            r == old(self)@.entries[old(self)@.current - 1].command.undo_result(old(target)@),
            r is Ok ==> old(self)@.undone_to(old(target)@, final(self)@, final(target)@),
            r is Err ==> final(self)@ == old(self)@ && *final(target) == *old(target),
    {
        let i = self.current - 1;
        let ghost o = self.entries@;
        let mut e = self.entries.remove(i).unwrap();
        let r = e.command.undo(target);
        self.entries.insert(i, e);
        assert(self.entries@ =~= o);
        if r.is_ok() {
            self.current = i;
        }
        r
    }

    /// Applies the entry at the cursor again, without signals.
    fn redo_step(&mut self, target: &mut C::Target) -> (r: Result<C::Output, C::Error>)
        requires
            old(self).inv(),
            old(self)@.can_redo(),
        ensures
            final(self).inv(),
            final(self).signals() == old(self).signals(),
            final(self).connected() == old(self).connected(),
            r == old(self)@.entries[old(self)@.current as int].command.apply_result(old(target)@),
            r is Ok ==> old(self)@.redone_to(old(target)@, final(self)@, final(target)@),
            r is Err ==> final(self)@ == old(self)@ && *final(target) == *old(target),
    {
        let i = self.current;
        let ghost o = self.entries@;
        let mut e = self.entries.remove(i).unwrap();
        let r = e.command.apply(target);
        self.entries.insert(i, e);
        assert(self.entries@ =~= o);
        if r.is_ok() {
            self.current = i + 1;
        }
        r
    }

    /// Undoes the entry before the cursor and moves the cursor back by one.
    /// On an error nothing changes and the entry's error is returned.
    pub fn undo(&mut self, target: &mut C::Target) -> (r: Result<C::Output, C::Error>)
        requires
            old(self).inv(),
            old(self)@.can_undo(),
        ensures
            final(self).inv(),
            old(self).signalled(*final(self)),
            r == old(self)@.entries[old(self)@.current - 1].command.undo_result(old(target)@),
            r is Ok ==> old(self)@.undone_to(old(target)@, final(self)@, final(target)@),
            r is Err ==> final(self)@ == old(self)@ && *final(target) == *old(target),
    {
        let could_undo = self.can_undo();
        let could_redo = self.can_redo();
        let was_saved = self.is_saved();
        let r = self.undo_step(target);
        self.emit_changes(could_undo, could_redo, was_saved);
        r
    }

    /// Applies the entry at the cursor again and moves the cursor forward by
    /// one. On an error nothing changes and the entry's error is returned.
    pub fn redo(&mut self, target: &mut C::Target) -> (r: Result<C::Output, C::Error>)
        requires
            old(self).inv(),
            old(self)@.can_redo(),
        ensures
            final(self).inv(),
            old(self).signalled(*final(self)),
            r == old(self)@.entries[old(self)@.current as int].command.apply_result(old(target)@),
            r is Ok ==> old(self)@.redone_to(old(target)@, final(self)@, final(target)@),
            r is Err ==> final(self)@ == old(self)@ && *final(target) == *old(target),
    {
        let could_undo = self.can_undo();
        let could_redo = self.can_redo();
        let was_saved = self.is_saved();
        let r = self.redo_step(target);
        self.emit_changes(could_undo, could_redo, was_saved);
        r
    }

    /// Undoes or redoes entries one by one until the cursor is at `index`.
    /// Stops at the first step that fails and returns its error, with the
    /// cursor where the last good step left it. Returns `None`, and does
    /// nothing, if `index` is past the last entry.
    pub fn go_to(&mut self, target: &mut C::Target, index: usize) -> (r: Option<Result<(), C::Error>>)
        requires
            old(self).inv(),
        ensures
            final(self).inv(),
            old(self).signalled(*final(self)),
            went_to(old(self)@, old(target)@, final(self)@, final(target)@, index as nat, r),
            index == old(self)@.current || index > old(self)@.entries.len() ==> *final(target)
                == *old(target),
    {
        if index > self.entries.len() {
            assert(self.signals() =~= self.signals() + delivered_of(
                self.connected(),
                flips(self@.flags(), self@.flags()),
            ));
            return None;
        }
        let ghost o = self@;
        let ghost t0 = target@;
        let ghost s0 = self.signals();
        let ghost c0 = self.connected();
        let could_undo = self.can_undo();
        let could_redo = self.can_redo();
        let was_saved = self.is_saved();
        let mut result: Result<(), C::Error> = Ok(());
        while self.current != index
            invariant_except_break
                result is Ok,
            invariant
                self.inv(),
                self.signals() == s0,
                self.connected() == c0,
                o.same_entries(self@),
                index <= o.entries.len(),
                index == o.current ==> *target == *old(target),
                index < o.current ==> {
                    &&& index <= self.current <= o.current
                    &&& target@ == undo_chain(o.entries, o.current, self.current as nat, t0)
                    &&& forall|j: nat|
                        self.current < j <= o.current ==> (#[trigger] o.entries[j
                            - 1].command.undo_result(undo_chain(o.entries, o.current, j, t0))) is Ok
                },
                index >= o.current ==> {
                    &&& o.current <= self.current <= index
                    &&& target@ == redo_chain(o.entries, o.current, self.current as nat, t0)
                    &&& forall|j: nat|
                        o.current <= j < self.current ==> (#[trigger] o.entries[j as int].command.apply_result(
                            redo_chain(o.entries, o.current, j, t0),
                        )) is Ok
                },
            ensures
                self.inv(),
                self.signals() == s0,
                self.connected() == c0,
                o.same_entries(self@),
                index == o.current ==> *target == *old(target),
                index < o.current ==> {
                    &&& index <= self.current <= o.current
                    &&& target@ == undo_chain(o.entries, o.current, self.current as nat, t0)
                    &&& forall|j: nat|
                        self.current < j <= o.current ==> (#[trigger] o.entries[j
                            - 1].command.undo_result(undo_chain(o.entries, o.current, j, t0))) is Ok
                    &&& result matches Err(e) ==> o.entries[self.current - 1].command.undo_result(
                        target@,
                    ) == Err::<C::Output, C::Error>(e)
                },
                index >= o.current ==> {
                    &&& o.current <= self.current <= index
                    &&& target@ == redo_chain(o.entries, o.current, self.current as nat, t0)
                    &&& forall|j: nat|
                        o.current <= j < self.current ==> (#[trigger] o.entries[j as int].command.apply_result(
                            redo_chain(o.entries, o.current, j, t0),
                        )) is Ok
                    &&& result matches Err(e) ==> o.entries[self.current as int].command.apply_result(
                        target@,
                    ) == Err::<C::Output, C::Error>(e)
                },
                result is Ok ==> self.current == index,
                result is Err ==> self.current != index,
            decreases if index < self.current { self.current - index } else { index - self.current },
        {
            if index < self.current {
                match self.undo_step(target) {
                    Ok(_) => {},
                    Err(e) => {
                        result = Err(e);
                        break;
                    },
                }
            } else {
                match self.redo_step(target) {
                    Ok(_) => {},
                    Err(e) => {
                        result = Err(e);
                        break;
                    },
                }
            }
        }
        self.emit_changes(could_undo, could_redo, was_saved);
        Some(result)
    }

    /// The position at time `to`: the number of leading entries recorded at
    /// or before `to`.
    pub fn position_at(&self, to: i64) -> (i: usize)
        requires
            self.inv(),
        ensures
            self@.position_at(to, i as nat),
    {
        let mut i: usize = 0;
        while i < self.entries.len() && self.entries[i].timestamp <= to
            invariant
                i <= self.entries@.len(),
                forall|j: int| 0 <= j < i ==> #[trigger] self.entries@[j].timestamp <= to,
            decreases self.entries@.len() - i,
        {
            i = i + 1;
        }
        i
    }

    /// Moves the cursor to the position at time `to` (milliseconds since the
    /// Unix epoch): every entry recorded at or before `to` is applied, every
    /// later one undone.
    pub fn time_travel(&mut self, target: &mut C::Target, to: i64) -> (r: Option<Result<(), C::Error>>)
        requires
            old(self).inv(),
        ensures
            final(self).inv(),
            old(self).signalled(*final(self)),
            r is Some,
            forall|i: nat|
                old(self)@.position_at(to, i) ==> went_to(
                    old(self)@,
                    old(target)@,
                    final(self)@,
                    final(target)@,
                    i,
                    r,
                ),
    {
        let i = self.position_at(to);
        proof {
            assert forall|k: nat| self@.position_at(to, k) implies k == i by {
                if k < i {
                    assert(self@.entries[k as int].timestamp <= to);
                } else if k > i {
                    assert(self@.entries[i as int].timestamp <= to);
                }
            }
        }
        self.go_to(target, i)
    }

    /// Marks the present state as the saved one, or, with `false`, forgets
    /// the saved state.
    pub fn set_saved(&mut self, saved: bool)
        requires
            old(self).inv(),
        ensures
            final(self).inv(),
            old(self).signalled(*final(self)),
            final(self)@ == (TimelineView {
                saved: if saved { Some(old(self)@.current) } else { None },
                ..old(self)@
            }),
    {
        let was_saved = self.is_saved();
        if saved {
            self.saved = Some(self.current);
            self.slot.emit_if(!was_saved, Signal::Saved(true));
        } else {
            self.saved = None;
            self.slot.emit_if(was_saved, Signal::Saved(false));
        }
    }

    /// Moves the cursor back to the saved state. Returns `None`, and does
    /// nothing, if there is none.
    pub fn revert(&mut self, target: &mut C::Target) -> (r: Option<Result<(), C::Error>>)
        requires
            old(self).inv(),
        ensures
            final(self).inv(),
            old(self).signalled(*final(self)),
            old(self)@.saved is None ==> r is None && final(self)@ == old(self)@ && *final(target)
                == *old(target),
            old(self)@.saved matches Some(s) ==> r is Some && went_to(
                old(self)@,
                old(target)@,
                final(self)@,
                final(target)@,
                s,
                r,
            ),
    {
        match self.saved {
            Some(s) => self.go_to(target, s),
            None => {
                assert(self.signals() =~= self.signals() + delivered_of(
                    self.connected(),
                    flips(self@.flags(), self@.flags()),
                ));
                None
            },
        }
    }

    /// Removes every entry. The timeline stays in the saved state if it was
    /// in it, and else has none.
    pub fn clear(&mut self)
        requires
            old(self).inv(),
        ensures
            final(self).inv(),
            old(self).signalled(*final(self)),
            final(self)@ == (TimelineView {
                entries: Seq::<Entry<C>>::empty(),
                current: 0,
                saved: if old(self)@.is_saved() { Some(0nat) } else { None },
                limit: old(self)@.limit,
            }),
    {
        let could_undo = self.can_undo();
        let could_redo = self.can_redo();
        let was_saved = self.is_saved();
        self.entries.clear();
        self.saved = if was_saved { Some(0) } else { None };
        self.current = 0;
        assert(self@.entries =~= Seq::<Entry<C>>::empty());
        self.emit_changes(could_undo, could_redo, was_saved);
    }
}

impl<C: ToString, F> Timeline<C, F> {
    /// The text of the operation that `undo` would undo, if any.
    pub fn undo_text(&self) -> (r: Option<String>)
        requires
            self.inv(),
        ensures
            r is Some <==> self@.can_undo(),
    {
        if self.current > 0 {
            self.text(self.current - 1)
        } else {
            None
        }
    }

    /// The text of the operation that `redo` would redo, if any.
    pub fn redo_text(&self) -> (r: Option<String>)
        requires
            self.inv(),
        ensures
            r is Some <==> self@.can_redo(),
    {
        self.text(self.current)
    }

    fn text(&self, i: usize) -> (r: Option<String>)
        ensures
            r is Some <==> i < self@.entries.len(),
    {
        if i < self.entries.len() {
            Some(text_of(&self.entries[i].command))
        } else {
            None
        }
    }
}

impl<C, F> Default for Timeline<C, F> {
    fn default() -> (t: Timeline<C, F>)
        ensures
            t.inv(),
            t@.entries.len() == 0,
            t@.current == 0,
            t@.saved == Some(0nat),
            t@.limit == DEFAULT_LIMIT,
    {
        Timeline::new()
    }
}

/// Configures a timeline before it is made: its capacity, whether the empty
/// state counts as saved, and the callback for signals.
pub struct Builder<F = fn(Signal)> {
    saved: bool,
    limit: usize,
    slot: Slot<F>,
}

impl<F> Builder<F> {
    pub closed spec fn saved_spec(&self) -> bool {
        self.saved
    }

    pub closed spec fn limit_spec(&self) -> nat {
        self.limit as nat
    }

    /// The callback for signals that the timeline will get, if any.
    pub closed spec fn callback(&self) -> Option<F> {
        self.slot.callback()
    }

    pub open spec fn wf(&self) -> bool {
        self.limit_spec() > 0
    }

    /// The empty state counts as saved, the capacity is the default one, and
    /// no callback is connected.
    pub fn new() -> (b: Builder<F>)
        ensures
            b.wf(),
            b.saved_spec(),
            b.limit_spec() == DEFAULT_LIMIT,
            b.callback() is None,
    {
        Builder { saved: true, limit: DEFAULT_LIMIT, slot: Slot::new() }
    }

    /// Whether the empty state counts as saved.
    pub fn saved(self, saved: bool) -> (b: Builder<F>)
        ensures
            b.saved_spec() == saved,
            b.limit_spec() == self.limit_spec(),
            b.callback() == self.callback(),
    {
        let mut b = self;
        b.saved = saved;
        b
    }

    /// How many entries the timeline keeps at most.
    pub fn limit(self, limit: usize) -> (b: Builder<F>)
        requires
            limit > 0,
        ensures
            b.saved_spec() == self.saved_spec(),
            b.limit_spec() == limit,
            b.callback() == self.callback(),
    {
        let mut b = self;
        b.limit = limit;
        b
    }

    /// Makes an empty timeline with this configuration.
    pub fn build<C>(self) -> (t: Timeline<C, F>)
        requires
            self.wf(),
        ensures
            t.inv(),
            t@.entries.len() == 0,
            t@.current == 0,
            t@.saved == (if self.saved_spec() { Some(0nat) } else { None }),
            t@.limit == self.limit_spec(),
            t.callback() == self.callback(),
    {
        Timeline {
            entries: VecDeque::with_capacity(self.limit),
            limit: self.limit,
            current: 0,
            saved: if self.saved { Some(0) } else { None },
            slot: self.slot,
        }
    }
}

impl<F: FnMut(Signal)> Builder<F> {
    /// Connects `f` as the callback for signals.
    pub fn connect(self, f: F) -> (b: Builder<F>)
        ensures
            b.saved_spec() == self.saved_spec(),
            b.limit_spec() == self.limit_spec(),
            b.callback() == Some(f),
    {
        let mut b = self;
        b.slot = Slot::from(f);
        b
    }
}

impl<F> Default for Builder<F> {
    fn default() -> (b: Builder<F>)
        ensures
            b.wf(),
            b.saved_spec(),
            b.limit_spec() == DEFAULT_LIMIT,
            b.callback() is None,
    {
        Builder::new()
    }
}

} // verus!
