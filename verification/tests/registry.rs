use arena_ffi::boundary::{inside_boundary, BoundaryScope};
use arena_ffi::registry::TokenRegistry;

#[test]
fn tokens_are_fresh_and_nonzero() {
    let mut r: TokenRegistry<&str> = TokenRegistry::new();
    let a = r.open_slot("a");
    let b = r.open_slot("b");
    assert_eq!(a, 1);
    assert_eq!(b, 2);
    assert!(r.is_registered(a) && r.is_registered(b));
    assert!(!r.is_registered(0));
    assert_eq!(r.len(), 2);
}

#[test]
fn release_removes_only_that_token() {
    let mut r: TokenRegistry<&str> = TokenRegistry::new();
    let a = r.open_slot("a");
    let b = r.open_slot("b");
    let c = r.open_slot("c");
    assert_eq!(r.release_slot(b), Some("b"));
    assert!(!r.is_registered(b));
    assert!(r.is_registered(a) && r.is_registered(c));
    assert_eq!(r.release_slot(b), None);
    assert_eq!(r.release_slot(0), None);
    assert_eq!(r.len(), 2);
    assert_eq!(*r.recipient_at(0), "a");
    assert_eq!(*r.recipient_at(1), "c");
}

#[test]
fn release_undoes_register_and_tokens_are_not_reused() {
    let mut r: TokenRegistry<u32> = TokenRegistry::new();
    r.open_slot(10);
    let t = r.open_slot(20);
    assert_eq!(r.release_slot(t), Some(20));
    assert_eq!(r.len(), 1);
    assert_eq!(r.token_at(0), 1);
    let u = r.open_slot(30);
    assert_ne!(u, t);
    assert_eq!(r.next_token(), u + 1);
}

#[test]
fn boundary_depth_transitions() {
    assert!(!inside_boundary(0));
    let d = BoundaryScope::enter(0);
    assert!(inside_boundary(d));
    assert_eq!(BoundaryScope::leave(d), 0);
    assert_eq!(BoundaryScope::leave(0), 0);
    assert_eq!(BoundaryScope::enter(u32::MAX), u32::MAX);
}

#[test]
fn nested_boundary_calls_count_depth() {
    let mut d = 0u32;
    d = BoundaryScope::enter(d);
    d = BoundaryScope::enter(d);
    d = BoundaryScope::leave(d);
    assert!(inside_boundary(d));
    d = BoundaryScope::leave(d);
    assert!(!inside_boundary(d));
}

#[test]
fn release_keeps_other_entries_in_order_and_zero_is_a_no_op() {
    let mut r: TokenRegistry<u32> = TokenRegistry::new();
    let a = r.open_slot(1);
    let b = r.open_slot(2);
    let c = r.open_slot(3);
    assert_eq!(r.release_slot(0), None);
    assert_eq!(r.len(), 3);
    assert_eq!(r.release_slot(b), Some(2));
    assert_eq!(r.len(), 2);
    assert_eq!((r.token_at(0), *r.recipient_at(0)), (a, 1));
    assert_eq!((r.token_at(1), *r.recipient_at(1)), (c, 3));
    assert_eq!(r.release_slot(b), None);
    assert_eq!(r.len(), 2);
}

#[test]
fn optional_registration_answers_zero_without_a_recipient() {
    let mut r: TokenRegistry<u32> = TokenRegistry::new();
    assert_eq!(r.register_optional(None), 0);
    assert_eq!(r.len(), 0);
    assert_eq!(r.next_token(), 1);
    let t = r.register_optional(Some(7));
    assert_eq!(t, 1);
    assert!(r.is_registered(t));
    assert_eq!(r.release_slot(t), Some(7));
    let u = r.register_optional(Some(8));
    assert_ne!(u, t);
    assert!(!r.is_registered(t));
    assert!(r.is_registered(u));
}
