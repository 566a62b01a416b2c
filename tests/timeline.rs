use std::cell::RefCell;
use std::rc::Rc;
use undo::{Add, Builder, Command, Signal, Timeline};
use vstd::seq::Seq;

fn text_timeline() -> Timeline<Add> {
    Timeline::new()
}

/// Appends a whole word; consecutive words merge into one entry.
struct Word(String);

impl Command for Word {
    type Target = String;
    type Output = ();
    type Error = &'static str;

    // The spec functions below describe the operation to the verifier; they
    // are never called at run time.
    fn apply_result(&self, _t: Seq<char>) -> Result<(), &'static str> {
        unreachable!()
    }

    fn apply_view(&self, _t: Seq<char>) -> Seq<char> {
        unreachable!()
    }

    fn undo_result(&self, _t: Seq<char>) -> Result<(), &'static str> {
        unreachable!()
    }

    fn undo_view(&self, _t: Seq<char>) -> Seq<char> {
        unreachable!()
    }

    fn absorbs(&self, _next: Word) -> bool {
        unreachable!()
    }

    fn apply(&mut self, s: &mut String) -> Result<(), &'static str> {
        s.push_str(&self.0);
        Ok(())
    }

    fn undo(&mut self, s: &mut String) -> Result<(), &'static str> {
        let n = s.len() - self.0.len();
        s.truncate(n);
        Ok(())
    }

    fn merge(&mut self, next: &Self) -> bool {
        self.0.push_str(&next.0);
        true
    }
}

#[test]
fn add_undo_redo_with_signals() {
    let log = Rc::new(RefCell::new(Vec::new()));
    let sink = log.clone();
    let mut t: Timeline<Add, _> = Builder::new()
        .connect(move |s: Signal| sink.borrow_mut().push(s))
        .build();
    assert_eq!(t.limit(), 32);
    let mut s = String::new();
    t.apply(&mut s, Add('a')).unwrap();
    t.apply(&mut s, Add('b')).unwrap();
    t.apply(&mut s, Add('c')).unwrap();
    assert_eq!(t.len(), 3);
    assert_eq!(t.current(), 3);
    assert_eq!(s, "abc");
    t.undo(&mut s).unwrap();
    assert_eq!(t.current(), 2);
    assert_eq!(s, "ab");
    t.redo(&mut s).unwrap();
    assert_eq!(t.current(), 3);
    assert_eq!(s, "abc");
    let log = log.borrow();
    assert_eq!(log.iter().filter(|x| **x == Signal::Redo(false)).count(), 1);
    assert_eq!(
        *log,
        vec![
            Signal::Undo(true),
            Signal::Saved(false),
            Signal::Redo(true),
            Signal::Redo(false)
        ]
    );
}

#[test]
fn applies_then_as_many_undos_restore_target() {
    let mut t = text_timeline();
    let mut s = String::from("xy");
    for c in "hello".chars() {
        t.apply(&mut s, Add(c)).unwrap();
    }
    assert_eq!(s, "xyhello");
    for _ in 0..5 {
        t.undo(&mut s).unwrap();
    }
    assert_eq!(s, "xy");
    assert!(!t.can_undo());
    assert!(t.can_redo());
}

#[test]
fn apply_leaves_nothing_to_redo() {
    let mut t = text_timeline();
    let mut s = String::new();
    t.apply(&mut s, Add('a')).unwrap();
    assert!(!t.can_redo());
    t.undo(&mut s).unwrap();
    assert!(t.can_redo());
    t.apply(&mut s, Add('b')).unwrap();
    assert!(!t.can_redo());
}

#[test]
fn apply_discards_redo_tail() {
    let mut t = text_timeline();
    let mut s = String::new();
    t.apply(&mut s, Add('a')).unwrap();
    t.apply(&mut s, Add('b')).unwrap();
    t.apply(&mut s, Add('c')).unwrap();
    t.undo(&mut s).unwrap();
    t.undo(&mut s).unwrap();
    t.apply(&mut s, Add('d')).unwrap();
    assert_eq!(s, "ad");
    assert_eq!(t.len(), 2);
    assert_eq!(t.current(), 2);
    assert!(!t.can_redo());
    assert_eq!(t.go_to(&mut s, 3), None);
    assert_eq!(s, "ad");
}

#[test]
fn full_timeline_evicts_oldest() {
    let mut t: Timeline<Add> = Builder::new().limit(3).build();
    let mut s = String::new();
    for c in "abcde".chars() {
        t.apply(&mut s, Add(c)).unwrap();
    }
    assert_eq!(t.len(), 3);
    assert_eq!(t.current(), 3);
    for _ in 0..3 {
        t.undo(&mut s).unwrap();
    }
    assert_eq!(s, "ab");
    assert!(!t.can_undo());
}

#[test]
fn default_limit_is_kept() {
    let mut t = text_timeline();
    let mut s = String::new();
    for _ in 0..40 {
        t.apply(&mut s, Add('z')).unwrap();
    }
    assert_eq!(t.len(), 32);
    assert_eq!(t.current(), 32);
}

#[test]
fn saved_state_returns_after_apply_and_undo() {
    let mut t: Timeline<Add> = Builder::new().saved(false).build();
    let mut s = String::new();
    assert!(!t.is_saved());
    t.apply(&mut s, Add('a')).unwrap();
    t.set_saved(true);
    assert!(t.is_saved());
    t.apply(&mut s, Add('b')).unwrap();
    assert!(!t.is_saved());
    t.undo(&mut s).unwrap();
    assert!(t.is_saved());
    t.set_saved(false);
    assert!(!t.is_saved());
}

#[test]
fn saved_state_is_lost_when_evicted() {
    let mut t: Timeline<Add> = Builder::new().limit(1).build();
    let mut s = String::new();
    assert!(t.is_saved());
    t.apply(&mut s, Add('a')).unwrap();
    t.apply(&mut s, Add('b')).unwrap();
    t.undo(&mut s).unwrap();
    assert_eq!(s, "a");
    assert!(!t.is_saved());
    assert_eq!(t.revert(&mut s), None);
}

#[test]
fn saved_state_within_limit_survives_eviction() {
    let mut t: Timeline<Add> = Builder::new().limit(2).build();
    let mut s = String::new();
    t.apply(&mut s, Add('a')).unwrap();
    t.set_saved(true);
    t.apply(&mut s, Add('b')).unwrap();
    t.apply(&mut s, Add('c')).unwrap();
    assert_eq!(t.revert(&mut s), Some(Ok(())));
    assert_eq!(s, "a");
    assert!(t.is_saved());
    assert_eq!(t.current(), 0);
}

#[test]
fn failed_undo_keeps_cursor() {
    let mut t = text_timeline();
    let mut s = String::new();
    t.apply(&mut s, Add('a')).unwrap();
    s.clear();
    assert_eq!(t.undo(&mut s), Err("s is empty"));
    assert_eq!(t.current(), 1);
    assert_eq!(s, "");
}

#[test]
fn go_to_stops_at_failing_step() {
    let mut t = text_timeline();
    let mut s = String::new();
    for c in "abc".chars() {
        t.apply(&mut s, Add(c)).unwrap();
    }
    assert_eq!(t.go_to(&mut s, 1), Some(Ok(())));
    assert_eq!(s, "a");
    assert_eq!(t.go_to(&mut s, 1), Some(Ok(())));
    assert_eq!(t.go_to(&mut s, 3), Some(Ok(())));
    assert_eq!(s, "abc");
    s.truncate(1);
    assert_eq!(t.go_to(&mut s, 0), Some(Err("s is empty")));
    assert_eq!(t.current(), 2);
    assert_eq!(s, "");
}

#[test]
fn time_travel_moves_by_timestamp() {
    let mut t = text_timeline();
    let mut s = String::new();
    for c in "abc".chars() {
        t.apply(&mut s, Add(c)).unwrap();
    }
    assert_eq!(t.position_at(i64::MIN), 0);
    assert_eq!(t.position_at(i64::MAX), 3);
    assert_eq!(t.time_travel(&mut s, i64::MIN), Some(Ok(())));
    assert_eq!(s, "");
    assert_eq!(t.current(), 0);
    assert_eq!(t.time_travel(&mut s, i64::MAX), Some(Ok(())));
    assert_eq!(s, "abc");
}

#[test]
fn merged_operations_form_one_entry() {
    let mut t: Timeline<Word> = Builder::new().saved(false).build();
    let mut s = String::new();
    t.apply(&mut s, Word("ab".to_string())).unwrap();
    t.apply(&mut s, Word("cd".to_string())).unwrap();
    assert_eq!(t.len(), 1);
    assert_eq!(t.current(), 1);
    t.undo(&mut s).unwrap();
    assert_eq!(s, "");
}

#[test]
fn no_merge_in_saved_state() {
    let mut t: Timeline<Word> = Timeline::new();
    let mut s = String::new();
    t.apply(&mut s, Word("ab".to_string())).unwrap();
    t.set_saved(true);
    t.apply(&mut s, Word("cd".to_string())).unwrap();
    assert_eq!(t.len(), 2);
    t.undo(&mut s).unwrap();
    assert_eq!(s, "ab");
    assert!(t.is_saved());
}

#[test]
fn clear_keeps_saved_state() {
    let log = Rc::new(RefCell::new(Vec::new()));
    let sink = log.clone();
    let mut t: Timeline<Add, _> = Builder::new().build();
    let mut s = String::new();
    t.apply(&mut s, Add('a')).unwrap();
    t.set_saved(true);
    t.apply(&mut s, Add('b')).unwrap();
    t.undo(&mut s).unwrap();
    assert!(t.connect(move |x: Signal| sink.borrow_mut().push(x)).is_none());
    t.clear();
    assert!(t.is_empty());
    assert_eq!(t.current(), 0);
    assert!(t.is_saved());
    assert_eq!(*log.borrow(), vec![Signal::Undo(false), Signal::Redo(false)]);
    assert!(t.disconnect().is_some());
    t.set_saved(false);
    assert_eq!(log.borrow().len(), 2);
}

impl std::fmt::Display for Word {
    fn fmt(&self, f: &mut std::fmt::Formatter) -> std::fmt::Result {
        f.write_str("append ")?;
        f.write_str(&self.0)
    }
}

#[test]
fn texts_of_pending_operations() {
    let mut t: Timeline<Word> = Builder::new().saved(false).limit(4).build();
    let mut s = String::new();
    assert_eq!(t.undo_text(), None);
    assert_eq!(t.redo_text(), None);
    t.apply(&mut s, Word("ab".to_string())).unwrap();
    assert_eq!(t.undo_text(), Some("append ab".to_string()));
    t.undo(&mut s).unwrap();
    assert_eq!(t.undo_text(), None);
    assert_eq!(t.redo_text(), Some("append ab".to_string()));
}

#[test]
fn signals_on_set_saved_only_on_change() {
    let log = Rc::new(RefCell::new(Vec::new()));
    let sink = log.clone();
    let mut t: Timeline<Add, _> = Builder::new()
        .connect(move |s: Signal| sink.borrow_mut().push(s))
        .build();
    t.set_saved(true);
    assert!(log.borrow().is_empty());
    t.set_saved(false);
    t.set_saved(false);
    assert_eq!(*log.borrow(), vec![Signal::Saved(false)]);
}

#[test]
fn connect_replaces_previous_callback() {
    let first = Rc::new(RefCell::new(Vec::new()));
    let second = Rc::new(RefCell::new(Vec::new()));
    let sink1 = first.clone();
    let sink2 = second.clone();
    let mut t: Timeline<Add, Box<dyn FnMut(Signal)>> = Builder::new()
        .connect(Box::new(move |s: Signal| sink1.borrow_mut().push(s)) as Box<dyn FnMut(Signal)>)
        .build();
    let mut s = String::new();
    t.apply(&mut s, Add('a')).unwrap();
    let prev = t.connect(Box::new(move |s: Signal| sink2.borrow_mut().push(s)));
    assert!(prev.is_some());
    t.undo(&mut s).unwrap();
    assert_eq!(*first.borrow(), vec![Signal::Undo(true), Signal::Saved(false)]);
    assert_eq!(*second.borrow(), vec![Signal::Undo(false), Signal::Redo(true), Signal::Saved(true)]);
}

#[test]
fn timestamps_never_decrease() {
    let mut t = text_timeline();
    let mut s = String::new();
    t.apply_at(&mut s, Add('a'), 100).unwrap();
    t.apply_at(&mut s, Add('b'), 50).unwrap();
    t.apply_at(&mut s, Add('c'), 200).unwrap();
    assert_eq!(t.position_at(99), 0);
    assert_eq!(t.position_at(100), 2);
    assert_eq!(t.position_at(199), 2);
    assert_eq!(t.time_travel(&mut s, 150), Some(Ok(())));
    assert_eq!(s, "ab");
    assert_eq!(t.current(), 2);
}
