use rusty_gui::{Notifier, Responder};

fn names(notifier: &Notifier<&'static str>) -> Vec<&'static str> {
    notifier.notify().into_iter().copied().collect()
}

#[test]
fn a_new_notifier_has_nobody_to_call() {
    let notifier: Notifier<u8> = Notifier::new();
    assert!(!notifier.has("click"));
    assert!(!notifier.disabled("click"));
    assert!(notifier.notify().is_empty());
}

#[test]
fn responders_are_called_in_the_order_of_their_registration() {
    let mut notifier = Notifier::new();
    notifier.add("first", "a");
    notifier.add("second", "b");
    notifier.add("third", "c");
    assert!(notifier.has("first") && notifier.has("second") && notifier.has("third"));
    assert!(!notifier.has("fourth"));
    assert!(!notifier.has("firs"));
    assert!(!notifier.has(""));
    assert_eq!(names(&notifier), vec!["a", "b", "c"]);
}

#[test]
fn a_name_holds_one_responder() {
    let mut notifier = Notifier::new();
    notifier.add("first", "a");
    notifier.add("second", "b");
    notifier.add("first", "c");
    assert_eq!(names(&notifier), vec!["c", "b"]);
}

#[test]
fn a_disabled_responder_is_passed_over() {
    let mut notifier = Notifier::new();
    notifier.add("first", "a");
    notifier.add("second", "b");
    notifier.disable("first");
    assert!(notifier.disabled("first"));
    assert!(!notifier.disabled("second"));
    assert!(notifier.has("first"));
    assert_eq!(names(&notifier), vec!["b"]);
    notifier.disable("second");
    assert_eq!(names(&notifier), Vec::<&str>::new());
    notifier.enable("first");
    assert!(!notifier.disabled("first"));
    assert_eq!(names(&notifier), vec!["a"]);
    notifier.enable("first");
    notifier.enable("nobody");
    assert_eq!(names(&notifier), vec!["a"]);
}

#[test]
fn only_a_known_name_can_be_disabled() {
    let mut notifier = Notifier::new();
    notifier.disable("later");
    assert!(!notifier.disabled("later"));
    notifier.add("later", "x");
    assert_eq!(names(&notifier), vec!["x"]);
}

#[test]
fn a_removed_name_stays_disabled() {
    let mut notifier = Notifier::new();
    notifier.add("first", "a");
    notifier.add("second", "b");
    notifier.disable("first");
    notifier.remove("first");
    assert!(!notifier.has("first"));
    assert!(notifier.disabled("first"));
    assert_eq!(names(&notifier), vec!["b"]);
    notifier.add("first", "again");
    assert!(notifier.has("first"));
    assert_eq!(names(&notifier), vec!["b"]);
    notifier.enable("first");
    assert_eq!(names(&notifier), vec!["b", "again"]);
    notifier.remove("nobody");
    notifier.remove("second");
    assert_eq!(names(&notifier), vec!["again"]);
}

#[test]
fn responders_hold_what_they_are_given() {
    let r = Responder::new(41);
    assert_eq!(*r.get(), 41);
    let mut notifier = Notifier::new();
    let add: Box<dyn Fn(&i32) -> i32> = Box::new(|x: &i32| x + 1);
    let double: Box<dyn Fn(&i32) -> i32> = Box::new(|x: &i32| x * 2);
    notifier.add("add", Responder::new(add));
    notifier.add("double", Responder::new(double));
    let results: Vec<i32> = notifier.notify().into_iter().map(|r| (r.get())(&20)).collect();
    assert_eq!(results, vec![21, 40]);
}
