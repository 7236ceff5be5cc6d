use gap_buffer::gap::GapBuffer;
use std::rc::Rc;

#[test]
fn gap_buffer_test() {
    let mut buf = GapBuffer::new();
    buf.insert_iter("Lord of the Rings".chars().collect::<Vec<char>>());
    buf.set_position(12);

    buf.insert_iter("Onion ".chars().collect::<Vec<char>>());

    assert_eq!(buf.get_string(), "Lord of the Onion Rings");
}

#[test]
fn misc() {
    let mut gb = GapBuffer::new();
    println!("{:?}", gb);
    gb.insert("foo".to_string());
    println!("{:?}", gb);
    gb.insert("bar".to_string());
    println!("{:?}", gb);
    gb.insert("baz".to_string());
    println!("{:?}", gb);
    gb.insert("qux".to_string());
    println!("{:?}", gb);
    gb.insert("quux".to_string());
    println!("{:?}", gb);

    gb.set_position(2);

    assert_eq!(gb.remove(), Some("baz".to_string()));
    println!("{:?}", gb);
    assert_eq!(gb.remove(), Some("qux".to_string()));
    println!("{:?}", gb);
    assert_eq!(gb.remove(), Some("quux".to_string()));
    println!("{:?}", gb);
    assert_eq!(gb.remove(), None);
    println!("{:?}", gb);

    gb.insert("quuux".to_string());
    println!("{:?}", gb);

    gb.set_position(0);
    assert_eq!(gb.remove(), Some("foo".to_string()));
    println!("{:?}", gb);
    assert_eq!(gb.remove(), Some("bar".to_string()));
    println!("{:?}", gb);
    assert_eq!(gb.remove(), Some("quuux".to_string()));
    println!("{:?}", gb);
    assert_eq!(gb.remove(), None);
    println!("{:?}", gb);
}

#[test]
fn drop_elements() {
    let mut gb = GapBuffer::new();
    gb.insert("foo".to_string());
    gb.insert("bar".to_string());

    gb.set_position(1);
}

#[test]
fn new_buffer_is_empty() {
    let buf: GapBuffer<char> = GapBuffer::new();
    assert_eq!(buf.len(), 0);
    assert_eq!(buf.capacity(), 0);
    assert_eq!(buf.position(), 0);
}

#[test]
fn insert_iter_fills_in_order() {
    let mut buf = GapBuffer::new();
    buf.insert_iter(vec![10, 20, 30, 40, 50]);
    assert_eq!(buf.len(), 5);
    for (i, expected) in [10, 20, 30, 40, 50].iter().enumerate() {
        assert_eq!(buf.get(i), Some(expected));
    }
}

#[test]
fn set_position_then_insert_iter_splices() {
    let mut buf = GapBuffer::new();
    buf.insert_iter(vec![1, 2, 3, 4]);
    buf.set_position(2);
    buf.insert_iter(vec![9, 8]);
    let collected: Vec<i32> = (0..buf.len()).map(|i| *buf.get(i).unwrap()).collect();
    assert_eq!(collected, vec![1, 2, 9, 8, 3, 4]);
    assert_eq!(buf.position(), 4);
}

#[test]
fn remove_from_front_returns_all_in_order() {
    let mut buf = GapBuffer::new();
    buf.insert_iter(vec!['a', 'b', 'c', 'd']);
    buf.set_position(0);
    assert_eq!(buf.remove(), Some('a'));
    assert_eq!(buf.remove(), Some('b'));
    assert_eq!(buf.remove(), Some('c'));
    assert_eq!(buf.remove(), Some('d'));
    assert_eq!(buf.remove(), None);
    assert_eq!(buf.remove(), None);
    assert_eq!(buf.len(), 0);
}

#[test]
fn get_out_of_bounds_is_absent() {
    let mut buf = GapBuffer::new();
    assert_eq!(buf.get(0), None);
    assert_eq!(buf.get(7), None);
    buf.insert_iter(vec![1, 2, 3]);
    assert_eq!(buf.get(2), Some(&3));
    assert_eq!(buf.get(3), None);
    assert_eq!(buf.get(usize::MAX), None);
    buf.set_position(1);
    assert_eq!(buf.get(3), None);
    assert_eq!(buf.get(2), Some(&3));
}

#[test]
fn disposal_releases_each_element_once() {
    let counter = Rc::new(());
    {
        let mut buf = GapBuffer::new();
        for _ in 0..10 {
            buf.insert(Rc::clone(&counter));
        }
        buf.set_position(4);
        assert_eq!(Rc::strong_count(&counter), 11);
        // Two elements leave the buffer by hand; the other eight die with it.
        let taken = buf.remove();
        assert!(taken.is_some());
        drop(taken);
        let taken = buf.remove();
        assert!(taken.is_some());
        drop(taken);
        assert_eq!(Rc::strong_count(&counter), 9);
    }
    assert_eq!(Rc::strong_count(&counter), 1);
}

#[test]
fn insert_remove_scenario() {
    let mut buf = GapBuffer::new();
    buf.insert_iter(vec![1, 2, 3, 4, 5]);
    buf.set_position(2);
    assert_eq!(buf.remove(), Some(3));
    assert_eq!(buf.remove(), Some(4));
    assert_eq!(buf.remove(), Some(5));
    assert_eq!(buf.remove(), None);
    buf.set_position(0);
    assert_eq!(buf.remove(), Some(1));
    assert_eq!(buf.remove(), Some(2));
    assert_eq!(buf.len(), 0);
}

#[test]
fn capacity_doubles_with_floor_of_four() {
    let mut buf = GapBuffer::new();
    assert_eq!(buf.capacity(), 0);
    buf.insert('x');
    assert_eq!(buf.capacity(), 4);
    buf.insert_iter(vec!['y', 'z', 'w']);
    assert_eq!(buf.capacity(), 4);
    buf.insert('v');
    assert_eq!(buf.capacity(), 8);
    assert_eq!(buf.len(), 5);
}

#[test]
fn iter_visits_logical_order() {
    let mut buf = GapBuffer::new();
    buf.insert_iter("hello".chars().collect::<Vec<char>>());
    buf.set_position(1);
    let mut it = buf.iter();
    let mut out = String::new();
    while let Some(c) = it.next() {
        out.push(*c);
    }
    assert_eq!(out, "hello");
    let mut again = buf.iter();
    assert_eq!(again.next(), Some(&'h'));
}
