use rgraph_core::promise::{channel, Promise};

#[test]
fn resolved_value_is_observed_once() {
    let mut p = Promise::resolved(42);
    assert!(p.is_ready());
    assert_eq!(p.try_take(), Some(42));
    assert_eq!(p.try_take(), None);
}

#[test]
fn pending_promise_resolves_via_resolver() {
    let (mut p, r) = channel::<bool>();
    assert_eq!(p.try_take(), None);
    r.resolve(true);
    assert_eq!(p.try_take(), Some(true));
    assert_eq!(p.try_take(), None);
}

#[test]
fn dropped_resolver_makes_block_take_return_none() {
    let (p, r) = channel::<()>();
    drop(r);
    assert_eq!(p.block_take(), None);
}

#[test]
fn block_take_after_resolve_returns_value() {
    let (p, r) = channel::<u32>();
    r.resolve(7);
    assert_eq!(p.block_take(), Some(7));
}

#[test]
fn promise_round_trip() {
    let mut p = rgraph_core::promise::Promise::resolved(42i32);
    assert_eq!(p.try_take(), Some(42));

    let (mut promise, resolver) = rgraph_core::promise::channel::<bool>();
    resolver.resolve(true);
    assert_eq!(promise.try_take(), Some(true));
}

#[test]
fn pending_promise_is_not_ready_until_resolved() {
    let (mut p, r) = channel::<u8>();
    assert!(!p.is_ready());
    r.resolve(3);
    assert!(p.is_ready());
    assert!(p.is_ready());
    assert_eq!(p.try_take(), Some(3));
    assert!(!p.is_ready());
}

#[test]
fn resolved_promise_block_take() {
    let p = Promise::resolved("x".to_string());
    assert_eq!(p.block_take(), Some("x".to_string()));
}

#[test]
fn empty_polls_keep_the_promise_waiting() {
    let (mut p, r) = channel::<u32>();
    assert_eq!(p.try_take(), None);
    assert_eq!(p.try_take(), None);
    assert!(!p.is_ready());
    r.resolve(7);
    assert_eq!(p.try_take(), Some(7));
    assert_eq!(p.try_take(), None);
}

#[test]
fn dropped_resolver_yields_nothing_to_polls_or_blocking_take() {
    let (mut p, r) = channel::<u32>();
    drop(r);
    assert_eq!(p.try_take(), None);
    assert!(!p.is_ready());
    assert_eq!(p.try_take(), None);
    assert_eq!(p.block_take(), None);
}
