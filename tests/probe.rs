use uptimeem::probe::Prober;
use uptimeem::state::{Address, SharedState};

#[test]
fn new_session_starts_at_zero() {
    let p = Prober::new();
    assert_eq!(p.sequence(), 0);
    assert_eq!(p.request(), (p.identifier(), 0));
}

#[test]
fn matching_replies() {
    let p = Prober::with_identifier(77);
    assert!(p.is_match(Some((77, 0))));
    assert!(!p.is_match(Some((78, 0))));
    assert!(!p.is_match(Some((77, 1))));
    assert!(!p.is_match(None));
}

#[test]
fn replies_are_recorded() {
    let mut s = SharedState::new();
    let a = Address::V4(9);
    s.insert(a);
    let mut p = Prober::with_identifier(5);
    assert!(p.on_reply(&mut s, &a, Some((5, 0))));
    assert_eq!(p.request(), (5, 1));
    assert!(p.on_reply(&mut s, &a, Some((5, 0))));
    assert!(p.on_reply(&mut s, &a, None));
    let m = s.lookup(&a).unwrap();
    assert_eq!((m.total(), m.success(), m.failure()), (3, 1, 2));
    assert_eq!(p.sequence(), 3);
}

#[test]
fn untracked_host_stops_probing() {
    let mut s = SharedState::new();
    let mut p = Prober::with_identifier(1);
    assert!(!p.on_reply(&mut s, &Address::V4(10), Some((1, 0))));
    assert_eq!(s.get_num_tracked(), 0);
}

#[test]
fn sequence_wraps() {
    let mut s = SharedState::new();
    let a = Address::V6(11);
    s.insert(a);
    let mut p = Prober::with_identifier(2);
    for _ in 0..65535u32 {
        p.on_reply(&mut s, &a, None);
    }
    assert_eq!(p.sequence(), 65535);
    p.on_reply(&mut s, &a, Some((2, 65535)));
    assert_eq!(p.sequence(), 0);
    assert_eq!(p.identifier(), 2);
}
