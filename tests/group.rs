use undo::{Add, Command, Timeline, UndoGroup};
use vstd::seq::Seq;

/// Pops an element from a vector; undoing pushes it back.
///
/// It remembers the element it popped, which the operation contract of the
/// library does not allow (an operation stays as it was recorded). The test
/// relies only on the group handing each call to the active timeline.
struct PopCmd {
    e: Option<i32>,
}

impl Command for PopCmd {
    type Target = Vec<i32>;
    type Output = ();
    type Error = &'static str;

    // The spec functions below describe the operation to the verifier; they
    // are never called at run time.
    fn apply_result(&self, _t: Seq<i32>) -> Result<(), &'static str> {
        unreachable!()
    }

    fn apply_view(&self, _t: Seq<i32>) -> Seq<i32> {
        unreachable!()
    }

    fn undo_result(&self, _t: Seq<i32>) -> Result<(), &'static str> {
        unreachable!()
    }

    fn undo_view(&self, _t: Seq<i32>) -> Seq<i32> {
        unreachable!()
    }

    fn absorbs(&self, _next: PopCmd) -> bool {
        unreachable!()
    }

    fn apply(&mut self, v: &mut Vec<i32>) -> Result<(), &'static str> {
        self.e = v.pop();
        Ok(())
    }

    fn undo(&mut self, v: &mut Vec<i32>) -> Result<(), &'static str> {
        v.push(self.e.unwrap());
        self.e = None;
        Ok(())
    }

    fn merge(&mut self, _next: &PopCmd) -> bool {
        false
    }
}

#[test]
fn pop() {
    let mut vec1 = vec![1, 2, 3];
    let mut vec2 = vec![1, 2, 3];

    let mut group: UndoGroup<PopCmd> = UndoGroup::new();

    let a = group.add_stack(Timeline::new());
    let b = group.add_stack(Timeline::new());

    group.set_active_stack(&a);
    group.push(&mut vec1, PopCmd { e: None });

    assert_eq!(vec1.len(), 2);

    group.set_active_stack(&b);
    group.push(&mut vec2, PopCmd { e: None });

    assert_eq!(vec2.len(), 2);

    group.set_active_stack(&a);
    group.undo(&mut vec1);

    assert_eq!(vec1.len(), 3);

    group.set_active_stack(&b);
    group.undo(&mut vec2);

    assert_eq!(vec2.len(), 3);

    let _ = group.remove_stack(b);
    group.redo(&mut vec2);

    assert_eq!(group.len(), 1);
    assert_eq!(vec2.len(), 3);
    assert_eq!(group.remove_stack(a).len(), 1);
}

#[test]
fn group_delegates_to_active_only() {
    let mut group: UndoGroup<Add> = UndoGroup::with_capacity(4);
    let mut a_text = String::new();
    let mut b_text = String::new();
    let a = group.add_stack(Timeline::new());
    let b = group.add_stack(Timeline::new());
    assert_eq!(group.is_clean(), None);
    assert_eq!(group.is_dirty(), None);
    group.set_active_stack(&b);
    assert_eq!(group.push(&mut b_text, Add('y')), Some(Ok(())));
    assert_eq!(group.is_dirty(), Some(true));
    group.set_active_stack(&a);
    assert_eq!(group.is_clean(), Some(true));
    assert_eq!(group.undo(&mut a_text), None);
    assert_eq!(group.push(&mut a_text, Add('x')), Some(Ok(())));
    assert_eq!(group.undo(&mut a_text), Some(Ok(())));
    assert_eq!(a_text, "");
    assert_eq!(b_text, "y");
    assert_eq!(group.redo(&mut a_text), Some(Ok(())));
    assert_eq!(group.redo(&mut a_text), None);
    assert_eq!(a_text, "x");
    assert_eq!(b_text, "y");
    let ta = group.remove_stack(a);
    let tb = group.remove_stack(b);
    assert_eq!(ta.len(), 1);
    assert_eq!(tb.len(), 1);
}

#[test]
fn removing_active_stack_makes_delegation_inert() {
    let mut group: UndoGroup<Add> = UndoGroup::new();
    let mut text = String::new();
    let a = group.add_stack(Timeline::new());
    group.set_active_stack(&a);
    group.push(&mut text, Add('q'));
    let t = group.remove_stack(a);
    assert_eq!(t.current(), 1);
    assert_eq!(group.push(&mut text, Add('r')), None);
    assert_eq!(group.undo(&mut text), None);
    assert_eq!(group.redo(&mut text), None);
    assert_eq!(group.is_clean(), None);
    assert_eq!(text, "q");
    let b = group.add_stack(t);
    group.set_active_stack(&b);
    assert_eq!(group.undo(&mut text), Some(Ok(())));
    assert_eq!(text, "");
}

#[test]
fn cleared_active_stack_is_inert() {
    let mut group: UndoGroup<Add> = UndoGroup::new();
    let mut text = String::new();
    let a = group.add_stack(Timeline::new());
    group.set_active_stack(&a);
    group.clear_active_stack();
    assert_eq!(group.push(&mut text, Add('q')), None);
    assert_eq!(text, "");
    group.shrink_to_fit();
    assert!(group.capacity() >= 1);
}
