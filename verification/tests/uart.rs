use cody_emulator::device::uart::RingBuf;

#[test]
fn test_push_to_capacity() {
    let mut buf = RingBuf::new();
    assert_eq!(buf.len(), 0);
    assert!(buf.push(1));
    assert_eq!(buf.len(), 1);
    assert!(buf.push(2));
    assert_eq!(buf.len(), 2);
    assert!(buf.push(3));
    assert_eq!(buf.len(), 3);
    assert!(buf.push(4));
    assert_eq!(buf.len(), 4);
    assert!(buf.push(5));
    assert_eq!(buf.len(), 5);
    assert!(buf.push(6));
    assert_eq!(buf.len(), 6);
    assert!(buf.push(7));
    assert_eq!(buf.len(), 7);
    assert!(!buf.push(8));
    assert_eq!(buf.len(), 7);
}

#[test]
fn test_pop_empty() {
    let mut buf = RingBuf::new();
    assert_eq!(buf.len(), 0);
    assert_eq!(buf.pop(), None);
    assert_eq!(buf.len(), 0);
}

#[test]
fn test_pop_one() {
    let mut buf = RingBuf::new();
    assert_eq!(buf.len(), 0);
    assert_eq!(buf.pop(), None);
    assert_eq!(buf.len(), 0);
    assert!(buf.push(1));
    assert_eq!(buf.len(), 1);
    assert_eq!(buf.pop(), Some(1));
    assert_eq!(buf.len(), 0);
}

#[test]
fn test_pop_from_capacity() {
    let mut buf = RingBuf::new();
    assert_eq!(buf.len(), 0);
    assert!(buf.push(1));
    assert!(buf.push(2));
    assert!(buf.push(3));
    assert!(buf.push(4));
    assert!(buf.push(5));
    assert!(buf.push(6));
    assert!(buf.push(7));
    assert!(!buf.push(8));
    assert_eq!(buf.len(), 7);
    assert_eq!(buf.pop(), Some(1));
    assert_eq!(buf.pop(), Some(2));
    assert_eq!(buf.pop(), Some(3));
    assert_eq!(buf.pop(), Some(4));
    assert_eq!(buf.pop(), Some(5));
    assert_eq!(buf.pop(), Some(6));
    assert_eq!(buf.pop(), Some(7));
    assert_eq!(buf.len(), 0);
}

#[test]
fn test_push_pop_one() {
    let mut buf = RingBuf::new();
    for i in 1..16 {
        assert_eq!(buf.len(), 0);
        assert!(buf.push(i));
        assert_eq!(buf.len(), 1);
        assert_eq!(buf.pop(), Some(i));
    }
    assert_eq!(buf.len(), 0);
}

#[test]
fn test_push_pop_two() {
    let mut buf = RingBuf::new();
    for i in 1..16 {
        assert_eq!(buf.len(), 0);
        assert!(buf.push(i));
        assert!(buf.push(i + 1));
        assert_eq!(buf.len(), 2);
        assert_eq!(buf.pop(), Some(i));
        assert_eq!(buf.pop(), Some(i + 1));
    }
    assert_eq!(buf.len(), 0);
}

#[test]
fn test_status() {
    let mut buf = RingBuf::new();
    assert!(buf.is_empty());
    for i in 1..=7 {
        assert!(!buf.is_full());
        assert!(buf.push(i));
        assert!(!buf.is_empty());
    }
    assert!(buf.is_full());
}
