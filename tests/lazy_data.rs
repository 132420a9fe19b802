use std::cell::Cell;

use actix_lazy::lazy_data::{
    resolve, route_label, ExtractError, GetAction, GetStep, LazyInit, INTERNAL_SERVER_ERROR,
};

fn step_of<P>(a: &GetAction<P>) -> GetStep {
    match a {
        GetAction::UseCached => GetStep::UseCached,
        GetAction::Run(_) => GetStep::RunProducer,
        GetAction::Wait => GetStep::Wait,
    }
}

#[test]
fn first_get_claims_the_producer() {
    let mut cell = LazyInit::new(10usize);
    assert!(!cell.is_ready());
    match cell.on_get() {
        GetAction::Run(v) => assert_eq!(v, 10),
        _ => panic!("the first caller must claim the producer"),
    }
    cell.on_produced();
    assert!(cell.is_ready());
    assert_eq!(step_of(&cell.on_get()), GetStep::UseCached);
}

#[test]
fn concurrent_callers_run_the_producer_once() {
    let runs = Cell::new(0u32);
    let mut cell = LazyInit::new(|| {
        runs.set(runs.get() + 1);
        10usize
    });
    let mut value = None;
    let mut waiting = 0;
    for _ in 0..5 {
        match cell.on_get() {
            GetAction::Run(f) => value = Some(f()),
            GetAction::Wait => waiting += 1,
            GetAction::UseCached => panic!("nothing is stored yet"),
        }
    }
    assert_eq!(waiting, 4);
    cell.on_produced();
    assert_eq!(value, Some(10));
    assert_eq!(runs.get(), 1);
}

#[test]
fn later_gets_use_the_cached_value() {
    let runs = Cell::new(0u32);
    let mut cell = LazyInit::new(|| {
        runs.set(runs.get() + 1);
        10usize
    });
    if let GetAction::Run(f) = cell.on_get() {
        assert_eq!(f(), 10);
    }
    cell.on_produced();
    for _ in 0..10 {
        assert_eq!(step_of(&cell.on_get()), GetStep::UseCached);
    }
    assert_eq!(runs.get(), 1);
}

#[test]
fn produced_before_any_claim_changes_nothing() {
    let mut cell = LazyInit::new(7u8);
    cell.on_produced();
    assert!(!cell.is_ready());
    assert_eq!(step_of(&cell.on_get()), GetStep::RunProducer);
}

#[test]
fn abandoned_run_leaves_callers_waiting() {
    let mut cell = LazyInit::new(1u8);
    let claimed = cell.on_get();
    drop(claimed);
    assert_eq!(step_of(&cell.on_get()), GetStep::Wait);
    assert_eq!(step_of(&cell.on_get()), GetStep::Wait);
    assert!(!cell.is_ready());
}

#[test]
fn resolve_registered_handle() {
    let registered: Option<usize> = Some(10);
    assert_eq!(resolve(registered), Ok(10));
}

#[test]
fn resolve_unregistered_type_is_server_error() {
    let registered: Option<u32> = None;
    let r = resolve(registered);
    assert_eq!(r, Err(ExtractError::NotConfigured));
    let e = r.unwrap_err();
    assert_eq!(e.status_code(), 500);
    assert_eq!(INTERNAL_SERVER_ERROR, 500);
    assert_eq!(
        e.message(),
        "Requested application data is not configured correctly. View/enable debug logs for more details."
    );
}

#[test]
fn route_label_prefers_the_route_name() {
    assert_eq!(route_label(Some("index"), "/"), "index");
    assert_eq!(route_label(None, "/items/3"), "/items/3");
}
