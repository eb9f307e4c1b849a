use gphoto::{Context, ErrorKind, NativeCall};

#[test]
fn new_session_has_one_holder() {
    let c = Context::new(0x1000).unwrap();
    assert_eq!(c.handle(), 0x1000);
    assert_eq!(c.holders(), 1);
    assert!(c.is_live());
}

#[test]
fn null_session_is_resource_exhausted() {
    let e = Context::new(0).unwrap_err();
    assert_eq!(e.err, -3);
    assert_eq!(e.kind(), ErrorKind::ResourceExhausted);
}

#[test]
fn share_orders_one_native_ref() {
    let mut c = Context::new(0x1000).unwrap();
    assert_eq!(c.share(), Some(NativeCall::ContextRef { context: 0x1000 }));
    assert_eq!(c.holders(), 2);
}

#[test]
fn releasing_n_holders_frees_after_the_nth() {
    let n = 5;
    let mut c = Context::new(0x2000).unwrap();
    for _ in 1..n {
        assert!(c.share().is_some());
    }
    assert_eq!(c.holders(), n);
    for k in 0..n {
        assert!(c.is_live(), "released before the last holder, at {}", k);
        assert_eq!(c.release(), Some(NativeCall::ContextUnref { context: 0x2000 }));
        assert_eq!(c.holders(), n - k - 1);
    }
    assert!(!c.is_live());
}

#[test]
fn released_session_orders_nothing_more() {
    let mut c = Context::new(0x3000).unwrap();
    assert_eq!(c.release(), Some(NativeCall::ContextUnref { context: 0x3000 }));
    assert_eq!(c.release(), None);
    assert_eq!(c.holders(), 0);
    assert_eq!(c.share(), None);
    assert_eq!(c.holders(), 0);
}
