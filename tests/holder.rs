use customer_service::error::{AppError, ErrorKind};
use customer_service::holder::{AcquireStep, ClientHolder};

fn failure() -> AppError {
    AppError::new(ErrorKind::Credentials, "key file missing".to_string())
}

#[test]
fn concurrent_acquires_initialize_once() {
    let mut h: ClientHolder<u32> = ClientHolder::new();
    let first = h.acquire();
    let attempt = match first {
        AcquireStep::Initialize(a) => a,
        other => panic!("expected Initialize, got {:?}", other),
    };
    for _ in 0..5 {
        assert_eq!(h.acquire(), AcquireStep::Wait(attempt));
    }
    assert!(h.finish_init(Ok(7)).is_ok());
    for _ in 0..5 {
        assert_eq!(h.poll(attempt).unwrap(), AcquireStep::UseCached);
        assert_eq!(h.client(), Some(&7));
    }
    assert_eq!(h.acquire(), AcquireStep::UseCached);
    assert_eq!(h.client(), Some(&7));
}

#[test]
fn failed_init_reaches_its_waiters() {
    let mut h: ClientHolder<u32> = ClientHolder::new();
    let attempt = match h.acquire() {
        AcquireStep::Initialize(a) => a,
        other => panic!("expected Initialize, got {:?}", other),
    };
    assert_eq!(h.acquire(), AcquireStep::Wait(attempt));
    assert_eq!(h.acquire(), AcquireStep::Wait(attempt));
    let e = h.finish_init(Err(failure())).unwrap_err();
    assert_eq!(e.kind, ErrorKind::Credentials);
    for _ in 0..2 {
        let w = h.poll(attempt).unwrap_err();
        assert_eq!(w.kind, ErrorKind::Credentials);
        assert_eq!(w.detail, "key file missing");
    }
    assert!(!h.is_ready());
    assert_eq!(h.client(), None);
}

#[test]
fn failed_init_is_retried_by_next_caller() {
    let mut h: ClientHolder<u32> = ClientHolder::new();
    let first = match h.acquire() {
        AcquireStep::Initialize(a) => a,
        other => panic!("expected Initialize, got {:?}", other),
    };
    assert!(h.finish_init(Err(failure())).is_err());
    let second = match h.acquire() {
        AcquireStep::Initialize(a) => a,
        other => panic!("expected Initialize, got {:?}", other),
    };
    assert_ne!(first, second);
    assert_eq!(h.acquire(), AcquireStep::Wait(second));
    assert!(h.finish_init(Ok(11)).is_ok());
    assert!(h.is_ready());
    assert_eq!(h.client(), Some(&11));
}

#[test]
fn abandoned_init_lets_next_caller_start() {
    let mut h: ClientHolder<u32> = ClientHolder::new();
    let attempt = match h.acquire() {
        AcquireStep::Initialize(a) => a,
        other => panic!("expected Initialize, got {:?}", other),
    };
    h.abandon_init();
    assert!(matches!(h.poll(attempt), Ok(AcquireStep::Initialize(_))));
}

#[test]
fn new_holder_has_no_client() {
    let h: ClientHolder<u32> = ClientHolder::new();
    assert!(!h.is_ready());
    assert_eq!(h.client(), None);
}

#[test]
fn late_waiter_still_gets_the_failure() {
    let mut h: ClientHolder<u32> = ClientHolder::new();
    let first = match h.acquire() {
        AcquireStep::Initialize(a) => a,
        other => panic!("expected Initialize, got {:?}", other),
    };
    assert_eq!(h.acquire(), AcquireStep::Wait(first));
    assert!(h.finish_init(Err(failure())).is_err());
    assert!(matches!(h.acquire(), AcquireStep::Initialize(_)));
    let e = h.poll(first).unwrap_err();
    assert_eq!(e.kind, ErrorKind::Credentials);
    assert_eq!(e.detail, "key file missing");
    assert!(h.finish_init(Ok(5)).is_ok());
    assert_eq!(h.poll(first).unwrap_err().kind, ErrorKind::Credentials);
    assert_eq!(h.acquire(), AcquireStep::UseCached);
    assert_eq!(h.client(), Some(&5));
}
