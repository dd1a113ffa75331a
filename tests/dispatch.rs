use graphql_router::dispatch::{dispatch_step, DispatchStep, Readiness};

#[test]
fn not_ready_keeps_request() {
    let r: DispatchStep<String, u8> = dispatch_step("query".to_string(), Readiness::NotReady);
    assert_eq!(r, DispatchStep::Suspend("query".to_string()));
}

#[test]
fn ready_hands_request_to_call() {
    let r: DispatchStep<String, u8> = dispatch_step("query".to_string(), Readiness::Ready);
    assert_eq!(r, DispatchStep::Call("query".to_string()));
}

#[test]
fn readiness_error_ends_without_call() {
    let r: DispatchStep<String, u8> = dispatch_step("query".to_string(), Readiness::Failed(7));
    assert_eq!(r, DispatchStep::Fail(7));
}

#[test]
fn waits_then_calls_once_with_same_request() {
    let mut held = "query { me { id } }".to_string();
    let mut suspensions = 0;
    let mut reports = vec![Readiness::NotReady, Readiness::NotReady, Readiness::NotReady, Readiness::<u8>::Ready];
    reports.reverse();
    let called = loop {
        let report = reports.pop().unwrap();
        match dispatch_step(held, report) {
            DispatchStep::Suspend(r) => {
                suspensions += 1;
                held = r;
            }
            DispatchStep::Call(r) => break r,
            DispatchStep::Fail(_) => panic!("no failure was reported"),
        }
    };
    assert_eq!(suspensions, 3);
    assert_eq!(called, "query { me { id } }");
    assert!(reports.is_empty());
}
