use tower_qos::{
    policy_fn, Classification, Exhausted, InstrumentFuture, NoInstrument, Outcome, Policy, Pool,
    ProtocolViolation, QualityOfService, QualityOfServiceLayer, DEFAULT_CEILING,
};

fn err_is_failure(r: &Result<u32, String>) -> Classification {
    if r.is_ok() {
        Classification::Success
    } else {
        Classification::Failure
    }
}

fn conserved(p: &Pool) -> bool {
    p.in_flight() + usize::from(p.is_reserved()) + p.available() == p.capacity()
}

#[test]
fn fifth_call_waits_then_succeeds_after_credit() {
    let mut p = Pool::new(4);
    let mut tickets = Vec::new();
    for _ in 0..4 {
        assert_eq!(p.try_acquire(), Ok(()));
        tickets.push(p.dispatch().unwrap());
    }
    assert_eq!(p.try_acquire(), Err(Exhausted));
    assert!(conserved(&p));
    let first = tickets.remove(0);
    assert_eq!(p.resolve(first, Classification::Success), Outcome::Credited);
    assert_eq!(p.try_acquire(), Ok(()));
    assert!(p.is_reserved());
    assert_eq!(p.available(), 0);
    assert!(conserved(&p));
}

#[test]
fn fifth_call_after_failure_sees_recomputed_ceiling() {
    let mut p = Pool::new(4);
    let mut tickets = Vec::new();
    for _ in 0..4 {
        assert_eq!(p.try_acquire(), Ok(()));
        tickets.push(p.dispatch().unwrap());
    }
    assert_eq!(p.try_acquire(), Err(Exhausted));
    let g = p.generation();
    let first = tickets.remove(0);
    assert_eq!(p.resolve(first, Classification::Failure), Outcome::Shrunk);
    assert_ne!(p.generation(), g);
    // floor(0.8 * 0) is 0, raised to the floor of one unit
    assert_eq!(p.capacity(), 1);
    assert_eq!(p.in_flight(), 0);
    assert_eq!(p.try_acquire(), Ok(()));
    assert_eq!(p.try_acquire(), Ok(()));
    assert!(conserved(&p));
    // the older calls belong to the retired generation
    for t in tickets {
        assert_eq!(p.resolve(t, Classification::Success), Outcome::Ignored);
    }
    assert_eq!(p.available(), 0);
    assert_eq!(p.capacity(), 1);
}

#[test]
fn error_shrinks_pool_and_passes_through() {
    let mut qos = QualityOfService::new(policy_fn(err_is_failure), ());
    assert_eq!(qos.pool().capacity(), DEFAULT_CEILING);
    assert_eq!(qos.poll_permit(), Ok(()));
    let fut = qos.dispatch("pending").unwrap();
    assert_eq!(fut.inner, "pending");
    let result: Result<u32, String> = Err(String::from("boom"));
    let (c, outcome) = qos.settle(fut, &result);
    assert_eq!(c, Classification::Failure);
    assert_eq!(outcome, Outcome::Shrunk);
    // 1023 units were spare: floor(0.8 * 1023) = 818
    assert_eq!(qos.pool().capacity(), 818);
    assert_eq!(qos.pool().available(), 818);
    assert_eq!(result, Err(String::from("boom")));
}

#[test]
fn success_credits_unit_back() {
    let mut qos = QualityOfService::with_ceiling(policy_fn(err_is_failure), (), 1, 2);
    assert_eq!(qos.poll_permit(), Ok(()));
    let fut = qos.dispatch(()).unwrap();
    assert_eq!(qos.pool().available(), 1);
    assert_eq!(qos.pool().in_flight(), 1);
    let (c, outcome) = qos.settle(fut, &Ok(7));
    assert_eq!(c, Classification::Success);
    assert_eq!(outcome, Outcome::Credited);
    assert_eq!(qos.pool().available(), 2);
    assert_eq!(qos.pool().in_flight(), 0);
    assert_eq!(qos.pool().capacity(), 2);
}

#[test]
fn ok_value_can_still_be_a_failure() {
    let policy = policy_fn(|r: &Result<u32, String>| match r {
        Ok(status) if *status >= 500 => Classification::Failure,
        Ok(_) => Classification::Success,
        Err(_) => Classification::Failure,
    });
    assert_eq!(policy.classify(&Ok(503)), Classification::Failure);
    assert_eq!(policy.classify(&Ok(200)), Classification::Success);
    assert_eq!(policy.classify(&Err(String::from("x"))), Classification::Failure);
}

#[test]
fn dispatch_without_readiness_is_refused() {
    let mut p = Pool::new(3);
    assert_eq!(p.dispatch().unwrap_err(), ProtocolViolation);
    assert_eq!(p.available(), 3);
    assert_eq!(p.in_flight(), 0);
    assert_eq!(p.try_acquire(), Ok(()));
    assert!(p.dispatch().is_ok());
    // the reservation was used up by the dispatch
    assert_eq!(p.dispatch().unwrap_err(), ProtocolViolation);
    let mut qos = QualityOfService::new(policy_fn(err_is_failure), ());
    assert!(qos.dispatch(()).is_err());
    assert_eq!(qos.pool().available(), DEFAULT_CEILING);
}

#[test]
fn repeated_readiness_check_keeps_one_reservation() {
    let mut p = Pool::new(3);
    assert_eq!(p.try_acquire(), Ok(()));
    assert_eq!(p.try_acquire(), Ok(()));
    assert_eq!(p.available(), 2);
    assert!(conserved(&p));
}

#[test]
fn empty_pool_never_admits() {
    let mut p = Pool::new(0);
    assert_eq!(p.try_acquire(), Err(Exhausted));
    assert_eq!(p.dispatch().unwrap_err(), ProtocolViolation);
}

#[test]
fn shrink_uses_four_fifths_of_available() {
    let mut p = Pool::new(10);
    p.shrink_and_replace();
    assert_eq!(p.capacity(), 8);
    p.shrink_and_replace();
    assert_eq!(p.capacity(), 6);
    let mut q = Pool::new(1);
    q.shrink_and_replace();
    assert_eq!(q.capacity(), 1);
    let mut big = Pool::new(usize::MAX);
    big.shrink_and_replace();
    assert_eq!(big.capacity(), usize::MAX / 5 * 4 + usize::MAX % 5 * 4 / 5);
}

#[test]
fn shrink_keeps_pending_reservation() {
    let mut p = Pool::new(10);
    assert_eq!(p.try_acquire(), Ok(()));
    assert_eq!(p.try_acquire(), Ok(()));
    p.shrink_and_replace();
    // 9 were spare: floor(7.2) = 7, one of them still reserved
    assert_eq!(p.capacity(), 7);
    assert!(p.is_reserved());
    assert_eq!(p.available(), 6);
    assert!(p.dispatch().is_ok());
    assert!(conserved(&p));
}

#[test]
fn stale_ticket_does_not_touch_new_generation() {
    let mut p = Pool::new(5);
    assert_eq!(p.try_acquire(), Ok(()));
    let a = p.dispatch().unwrap();
    assert_eq!(p.try_acquire(), Ok(()));
    let b = p.dispatch().unwrap();
    assert_eq!(p.resolve(a, Classification::Failure), Outcome::Shrunk);
    let cap = p.capacity();
    let avail = p.available();
    assert_eq!(p.resolve(b, Classification::Failure), Outcome::Ignored);
    assert_eq!(p.capacity(), cap);
    assert_eq!(p.available(), avail);
}

#[test]
fn abandoned_call_returns_its_unit() {
    let mut qos = QualityOfService::with_ceiling(policy_fn(err_is_failure), (), 2, 1);
    assert_eq!(qos.poll_permit(), Ok(()));
    let fut = qos.dispatch(()).unwrap();
    assert_eq!(qos.poll_permit(), Err(Exhausted));
    assert_eq!(qos.abandon(fut), Outcome::Credited);
    assert_eq!(qos.poll_permit(), Ok(()));
}

#[test]
fn credit_of_current_ticket_once() {
    let mut p = Pool::new(2);
    assert_eq!(p.try_acquire(), Ok(()));
    let t = p.dispatch().unwrap();
    assert_eq!(t.generation(), p.generation());
    assert_eq!(p.credit(t), Outcome::Credited);
    assert_eq!(p.available(), 2);
    assert_eq!(p.in_flight(), 0);
}

#[test]
fn layer_builds_service_with_default_ceiling() {
    let layer = QualityOfServiceLayer::new(policy_fn(err_is_failure), 0u8);
    let qos = layer.layer(5u8);
    assert_eq!(qos.service, 5u8);
    assert_eq!(qos.pool().capacity(), DEFAULT_CEILING);
    assert_eq!(qos.pool().available(), DEFAULT_CEILING);
    assert!(!qos.pool().is_reserved());
}

#[test]
fn instrument_future_attaches_to_values_only() {
    let mut f = InstrumentFuture::new(NoInstrument, "handle", ());
    assert!(f.is_armed());
    let e: Result<u32, String> = Err(String::from("down"));
    assert_eq!(f.complete(e), Err(String::from("down")));
    assert!(f.is_armed());
    assert_eq!(f.complete::<u32, String>(Ok(9)), Ok(9));
    assert!(!f.is_armed());
}

#[test]
fn generations_count_up_by_one() {
    let mut p = Pool::new(10);
    assert_eq!(p.generation(), 0);
    p.shrink_and_replace();
    assert_eq!(p.generation(), 1);
    p.shrink_and_replace();
    assert_eq!(p.generation(), 2);
}

#[test]
fn ticket_of_another_pool_is_ignored() {
    let mut a = Pool::with_id(1, 4);
    let mut b = Pool::with_id(2, 4);
    assert_eq!(a.try_acquire(), Ok(()));
    let t = a.dispatch().unwrap();
    assert_eq!(t.pool(), 1);
    assert_eq!(b.try_acquire(), Ok(()));
    let _u = b.dispatch().unwrap();
    assert_eq!(b.resolve(t, Classification::Failure), Outcome::Ignored);
    assert_eq!(b.generation(), 0);
    assert_eq!(b.available(), 3);
    assert_eq!(b.in_flight(), 1);
}

#[test]
fn layer_with_id_sets_pool_identity() {
    let layer = QualityOfServiceLayer::new(policy_fn(err_is_failure), 0u8);
    let qos = layer.layer_with_id(3u8, 9);
    assert_eq!(qos.pool().id(), 9);
    assert_eq!(qos.pool().capacity(), DEFAULT_CEILING);
}
