use render_harness::demo::{Demo, Key};
use render_harness::window::find_or_first;

#[test]
fn new_demo_runs() {
    let demo = Demo::new();
    assert!(demo.running);
    assert!(demo.events.is_empty());
}

#[test]
fn close_is_always_accepted() {
    let mut demo = Demo::new();
    assert!(demo.close());
    assert!(demo.running);
}

#[test]
fn escape_press_stops_demo() {
    let mut demo = Demo::new();
    demo.on_key(Key::Escape, true);
    assert!(!demo.running);
}

#[test]
fn other_keys_and_releases_keep_running() {
    let mut demo = Demo::new();
    demo.on_key(Key::Escape, false);
    demo.on_key(Key::Other, true);
    demo.on_cursor_entered();
    demo.on_cursor_left();
    demo.on_button(1, true);
    assert!(demo.running);
}

#[test]
fn find_or_first_on_nothing_is_none() {
    let items: Vec<u32> = Vec::new();
    assert_eq!(find_or_first(items, |x| *x == 1), None);
}

#[test]
fn find_or_first_takes_first_later_match() {
    assert_eq!(find_or_first(vec![1, 2, 3, 2], |x| *x >= 2), Some(2));
    assert_eq!(find_or_first(vec![5, 6, 7, 8], |x| *x % 2 == 1), Some(7));
}

#[test]
fn find_or_first_falls_back_to_first() {
    assert_eq!(find_or_first(vec![4, 5, 6], |x| *x == 9), Some(4));
}

#[test]
fn find_or_first_never_tests_the_first() {
    assert_eq!(find_or_first(vec![(3, 'a'), (1, 'b'), (3, 'c')], |x| x.0 == 3), Some((3, 'c')));
    assert_eq!(find_or_first(vec![(3, 'a'), (1, 'b')], |x| x.0 == 3), Some((3, 'a')));
    let names = vec![String::from("a"), String::from("b"), String::from("a")];
    assert_eq!(find_or_first(names, |n| n == "a"), Some(String::from("a")));
    assert_eq!(find_or_first(vec![7], |x| *x == 0), Some(7));
}
