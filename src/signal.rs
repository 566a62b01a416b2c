use vstd::prelude::*;

verus! {

/// A change of one of the history's flags, with the flag's new value.
#[derive(Clone, Copy, Debug, PartialEq, Eq, Structural)]
pub enum Signal {
    /// Whether there is something to undo.
    Undo(bool),
    /// Whether there is something to redo.
    Redo(bool),
    /// Whether the target is in the saved state.
    Saved(bool),
}

/// The flags that signals report: whether there is something to undo,
/// something to redo, and whether the target is in the saved state.
pub type Flags = (bool, bool, bool);

/// The signals for the flags that differ between `before` and `after`, in
/// the order undo, redo, saved, each with its new value.
pub open spec fn flips(before: Flags, after: Flags) -> Seq<Signal> {
    let u = if before.0 != after.0 { seq![Signal::Undo(after.0)] } else { Seq::empty() };
    let r = if before.1 != after.1 { seq![Signal::Redo(after.1)] } else { Seq::empty() };
    let s = if before.2 != after.2 { seq![Signal::Saved(after.2)] } else { Seq::empty() };
    u + r + s
}

/// What a callback receives of `signals`: all of them if one is connected,
/// else nothing.
pub open spec fn delivered_of(connected: bool, signals: Seq<Signal>) -> Seq<Signal> {
    if connected { signals } else { Seq::empty() }
}

/// The place where a caller's callback for signals is connected.
#[derive(Clone)]
pub struct Slot<F> {
    f: Option<F>,
    log: Ghost<Seq<Signal>>,
}

/// Calls the caller's callback with `signal`. The callback is the caller's own
/// code: nothing is assumed of what it does.
#[verifier::external_body]
fn call_callback<F: FnMut(Signal)>(f: &mut F, signal: Signal) {
    f(signal)
}

impl<F> Slot<F> {
    /// The connected callback, if any.
    pub closed spec fn callback(&self) -> Option<F> {
        self.f
    }

    pub open spec fn is_connected(&self) -> bool {
        self.callback() is Some
    }

    /// Every signal handed to a callback through this slot, oldest first.
    pub closed spec fn delivered(&self) -> Seq<Signal> {
        self.log@
    }

    pub fn new() -> (s: Slot<F>)
        ensures
            s.callback() is None,
            s.delivered() == Seq::<Signal>::empty(),
    {
        Slot { f: None, log: Ghost(Seq::empty()) }
    }

    pub fn from(f: F) -> (s: Slot<F>)
        ensures
            s.callback() == Some(f),
            s.delivered() == Seq::<Signal>::empty(),
    {
        Slot { f: Some(f), log: Ghost(Seq::empty()) }
    }

    /// Connects `f`, and returns the callback it replaces.
    pub fn replace(&mut self, f: F) -> (prev: Option<F>)
        ensures
            final(self).callback() == Some(f),
            final(self).delivered() == old(self).delivered(),
            prev == old(self).callback(),
    {
        let prev = self.f.take();
        self.f = Some(f);
        prev
    }

    /// Disconnects the callback, and returns it.
    pub fn take(&mut self) -> (prev: Option<F>)
        ensures
            final(self).callback() is None,
            final(self).delivered() == old(self).delivered(),
            prev == old(self).callback(),
    {
        self.f.take()
    }
}

impl<F: FnMut(Signal)> Slot<F> {
    /// Hands `signal` to the callback, if one is connected and `cond` holds.
    pub fn emit_if(&mut self, cond: bool, signal: Signal)
        ensures
            final(self).is_connected() == old(self).is_connected(),
            final(self).delivered() == old(self).delivered() + delivered_of(
                old(self).is_connected(),
                if cond { seq![signal] } else { Seq::empty() },
            ),
    {
        if cond {
            match &mut self.f {
                Some(f) => {
                    call_callback(f, signal);
                    self.log = Ghost(self.log@.push(signal));
                },
                None => {},
            }
        }
        assert(self.log@ =~= old(self).delivered() + delivered_of(
            old(self).is_connected(),
            if cond { seq![signal] } else { Seq::empty() },
        ));
    }
}

} // verus!
