use fork_map::emit::Emit;

#[test]
fn empty_payload_is_immediately_complete() {
    let e = Emit::new(0);
    assert!(e.is_complete());
    assert_eq!(e.offset(), 0);
    assert_eq!(e.remaining(), 0);
}

#[test]
fn one_write_covers_the_whole_payload() {
    let mut e = Emit::new(5);
    assert!(!e.is_complete());
    assert_eq!(e.offset(), 0);
    assert_eq!(e.remaining(), 5);
    e.advance(5);
    assert!(e.is_complete());
    assert_eq!(e.offset(), 5);
    assert_eq!(e.remaining(), 0);
}

#[test]
fn partial_writes_advance_until_done() {
    let mut e = Emit::new(10);
    e.advance(4);
    assert!(!e.is_complete());
    assert_eq!(e.offset(), 4);
    assert_eq!(e.remaining(), 6);
    e.advance(0);
    assert!(!e.is_complete());
    assert_eq!(e.offset(), 4);
    e.advance(6);
    assert!(e.is_complete());
    assert_eq!(e.offset(), 10);
    assert_eq!(e.remaining(), 0);
}
