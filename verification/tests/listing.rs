use smallqueue::listing::{bracketed, listed};
use smallqueue::queue::SmallQueue;
use std::fmt::{Debug, Error, Formatter};

/// An element whose `Debug` impl reports an error from the given number on.
struct Fails(u32);

impl Debug for Fails {
    fn fmt(&self, f: &mut Formatter<'_>) -> Result<(), Error> {
        if self.0 >= 10 {
            Err(Error)
        } else {
            f.write_str("ok")
        }
    }
}

#[test]
fn brackets_around_text() {
    assert_eq!(bracketed(""), "[]");
    assert_eq!(bracketed("x"), "[x]");
    assert_eq!(bracketed("1, 2"), "[1, 2]");
    assert_eq!(bracketed("[]"), "[[]]");
}

#[test]
fn texts_written_out_as_a_list() {
    assert_eq!(listed(&Vec::new()), "[]");
    assert_eq!(listed(&vec![String::from("a")]), "[a]");
    assert_eq!(listed(&vec![String::from("a"), String::from("b")]), "[a, b]");
    assert_eq!(
        listed(&vec![String::from("a"), String::new(), String::from("c, d")]),
        "[a, , c, d]"
    );
    assert_eq!(listed(&vec![String::new()]), "[]");
    assert_eq!(listed(&vec![String::new(), String::new()]), "[, ]");
}

#[test]
fn listing_of_empty_queue() {
    let queue: SmallQueue<i32> = SmallQueue::new();
    assert_eq!(queue.listing(), Some(String::from("[]")));
}

#[test]
fn listing_of_one_element() {
    let queue = SmallQueue::of(5);
    assert_eq!(queue.listing(), Some(String::from("[5]")));
    let text = SmallQueue::of("a b");
    assert_eq!(text.listing(), Some(String::from("[\"a b\"]")));
}

#[test]
fn listing_of_several_elements() {
    let mut queue = SmallQueue::new();
    queue.add(1);
    queue.add(2);
    queue.add(3);
    assert_eq!(queue.listing(), Some(String::from("[1, 2, 3]")));
    assert_eq!(queue.remove(), Some(1));
    assert_eq!(queue.listing(), Some(String::from("[2, 3]")));
    assert_eq!(queue.remove(), Some(2));
    assert_eq!(queue.listing(), Some(String::from("[3]")));
    assert_eq!(queue.remove(), Some(3));
    assert_eq!(queue.listing(), Some(String::from("[]")));
}

#[test]
fn listing_leaves_the_queue_as_it_is() {
    let mut queue = SmallQueue::new();
    queue.add(Some(1));
    queue.add(None);
    assert_eq!(queue.listing(), Some(String::from("[Some(1), None]")));
    assert_eq!(queue.listing(), Some(String::from("[Some(1), None]")));
    assert_eq!(queue.remove(), Some(Some(1)));
    assert_eq!(queue.remove(), Some(None));
    assert_eq!(queue.remove(), None);
}

#[test]
fn listing_agrees_with_the_deque_of_std() {
    let mut queue = SmallQueue::new();
    let mut deque = std::collections::VecDeque::new();
    for value in ["a", "b, c", "", "d"] {
        queue.add(value);
        deque.push_back(value);
        assert_eq!(queue.listing(), Some(format!("{:?}", deque)));
    }
}

#[test]
fn no_listing_where_an_element_reports_an_error() {
    let mut queue = SmallQueue::new();
    assert_eq!(queue.listing(), Some(String::from("[]")));
    queue.add(Fails(1));
    assert_eq!(queue.listing(), Some(String::from("[ok]")));
    queue.add(Fails(10));
    assert_eq!(queue.listing(), None);
    queue.add(Fails(2));
    assert_eq!(queue.listing(), None);
    assert!(queue.remove().is_some());
    assert_eq!(queue.listing(), None);
    assert!(queue.remove().is_some());
    assert_eq!(queue.listing(), Some(String::from("[ok]")));
    assert!(queue.remove().is_some());
    assert_eq!(queue.listing(), Some(String::from("[]")));
}

#[test]
fn no_listing_of_one_element_that_reports_an_error() {
    let queue = SmallQueue::of(Fails(11));
    assert_eq!(queue.listing(), None);
    assert!(!queue.is_empty());
}
