use czsc::ringbuffer::RingBuffer;

#[test]
fn test_ringbuffer() {
    let mut w = RingBuffer::<i32>::new(3);
    w.push(10);
    w.push(20);
    w.push(30);
    assert_eq!(*w.get_from_end(1).unwrap(), 30i32);
    assert_eq!(*w.get_from_end(2).unwrap(), 20i32);
    assert_eq!(*w.get_from_end(3).unwrap(), 10i32);
    assert_eq!(w.len(), 3);
    assert_eq!(*w.get(0).unwrap(), 10i32);
    w.push(40);
    assert_eq!(w.len(), 3);
    assert_eq!(*w.get_from_end(1).unwrap(), 40i32);
    assert_eq!(*w.get_from_end(2).unwrap(), 30i32);
    assert_eq!(*w.get_from_end(3).unwrap(), 20i32);
    assert_eq!(*w.get(0).unwrap(), 20i32);
    w.pop_front();
    assert_eq!(w.len(), 2);
    assert_eq!(*w.get_from_end(1).unwrap(), 40i32);
    assert_eq!(*w.get_from_end(2).unwrap(), 30i32);
    assert_eq!(*w.get(0).unwrap(), 30i32);
    assert_eq!(*w.get(1).unwrap(), 40i32);
}

#[test]
fn ringbuffer_out_of_range_is_none() {
    let mut w = RingBuffer::<i32>::new(3);
    assert!(w.get(0).is_none());
    assert!(w.get_from_end(1).is_none());
    w.push(1);
    assert!(w.get_from_end(0).is_none());
    assert!(w.get_from_end(2).is_none());
    assert!(w.get(1).is_none());
    assert!(w.get_mut(1).is_none());
}

#[test]
fn ringbuffer_get_mut_changes_one_item() {
    let mut w = RingBuffer::<i32>::new(3);
    w.push(1);
    w.push(2);
    w.push(3);
    *w.get_mut(1).unwrap() = 20;
    assert_eq!(*w.get(0).unwrap(), 1);
    assert_eq!(*w.get(1).unwrap(), 20);
    assert_eq!(*w.get(2).unwrap(), 3);
    assert_eq!(w.len(), 3);
}

#[test]
fn ringbuffer_pops_and_clear() {
    let mut w = RingBuffer::<i32>::new(2);
    assert_eq!(w.pop_front(), None);
    assert_eq!(w.pop_back(), None);
    w.push(1);
    w.push(2);
    w.push(3);
    assert_eq!(w.len(), 2);
    assert_eq!(w.pop_back(), Some(3));
    assert_eq!(w.pop_front(), Some(2));
    assert_eq!(w.len(), 0);
    w.push(7);
    w.clear();
    assert_eq!(w.len(), 0);
}

#[test]
fn ringbuffer_without_room_keeps_the_latest() {
    let mut w = RingBuffer::<i32>::new(0);
    w.push(1);
    w.push(2);
    assert_eq!(w.len(), 1);
    assert_eq!(*w.get(0).unwrap(), 2);
}
