use crate::command::Command;
use vstd::prelude::*;

verus! {

/// Relies on `String::push`: appends `c` to the end of `s`.
#[verifier::external_body]
fn push_char(s: &mut String, c: char)
    ensures
        final(s)@ == old(s)@.push(c),
{
    s.push(c)
}

/// Relies on `String::pop`: removes the last character of `s` and returns
/// it, or returns `None` if `s` is empty.
#[verifier::external_body]
fn pop_char(s: &mut String) -> (r: Option<char>)
    ensures
        old(s)@.len() == 0 ==> r is None && *final(s) == *old(s),
        old(s)@.len() > 0 ==> r == Some(old(s)@.last()) && final(s)@ == old(s)@.drop_last(),
{
    s.pop()
}

/// Appends one character to a text; undoing it removes the last character.
pub struct Add(pub char);

impl Command for Add {
    type Target = String;
    type Output = ();
    type Error = &'static str;

    open spec fn apply_result(&self, t: Seq<char>) -> Result<(), &'static str> {
        Ok(())
    }

    open spec fn apply_view(&self, t: Seq<char>) -> Seq<char> {
        t.push(self.0)
    }

    open spec fn undo_result(&self, t: Seq<char>) -> Result<(), &'static str> {
        if t.len() > 0 { Ok(()) } else { Err("s is empty") }
    }

    open spec fn undo_view(&self, t: Seq<char>) -> Seq<char> {
        t.drop_last()
    }

    open spec fn absorbs(&self, next: Add) -> bool {
        false
    }

    fn apply(&mut self, s: &mut String) -> (r: Result<(), &'static str>) {
        push_char(s, self.0);
        assert(s@.drop_last() =~= old(s)@);
        Ok(())
    }

    /// Removes the last character. The character is the one this operation
    /// appended, so the operation itself needs no update.
    fn undo(&mut self, s: &mut String) -> (r: Result<(), &'static str>) {
        match pop_char(s) {
            Some(_) => Ok(()),
            None => Err("s is empty"),
        }
    }

    fn merge(&mut self, next: &Add) -> (absorbed: bool) {
        false
    }
}

} // verus!
