use wrywebview::{
    DedicatedRunner, MarshalDecision, Platform, Strategy, WebViewError, marshal_decision,
    run_on_main_thread, strategy_for,
};

#[test]
fn one_strategy_per_platform() {
    assert_eq!(strategy_for(Platform::Linux), Strategy::DedicatedThread);
    assert_eq!(strategy_for(Platform::MacOs), Strategy::MainThreadMarshal);
    assert_eq!(strategy_for(Platform::Windows), Strategy::Direct);
    assert_eq!(strategy_for(Platform::Unsupported), Strategy::Direct);
}

#[test]
fn marshal_runs_inline_on_the_ui_thread() {
    assert_eq!(marshal_decision(true, true), MarshalDecision::RunInline);
    assert_eq!(marshal_decision(true, false), MarshalDecision::RunInline);
}

#[test]
fn marshal_blocks_unless_the_result_is_not_needed() {
    assert_eq!(marshal_decision(false, true), MarshalDecision::BlockUntilDone);
    assert_eq!(marshal_decision(false, false), MarshalDecision::FireAndForget);
}

#[test]
fn runner_spawns_exactly_once() {
    let mut runner = DedicatedRunner::new();
    assert!(runner.begin_init());
    assert!(!runner.begin_init());
    runner.complete_init(Ok(()));
    assert!(!runner.begin_init());
}

#[test]
fn ready_runner_hands_out_tickets_in_fifo_order() {
    let mut runner = DedicatedRunner::new();
    assert!(runner.begin_init());
    runner.complete_init(Ok(()));
    let t0 = runner.submit().unwrap();
    let t1 = runner.submit().unwrap();
    let t2 = runner.submit().unwrap();
    assert_eq!((t0, t1, t2), (0, 1, 2));
    assert_eq!(runner.take_task(), Some(0));
    assert_eq!(runner.take_task(), Some(1));
    let t3 = runner.submit().unwrap();
    assert_eq!(t3, 3);
    assert_eq!(runner.take_task(), Some(2));
    assert_eq!(runner.take_task(), Some(3));
    assert_eq!(runner.take_task(), None);
}

#[test]
fn failed_initialization_is_terminal_and_replayed() {
    let mut runner = DedicatedRunner::new();
    assert!(runner.begin_init());
    runner.complete_init(Err("no display".to_string()));
    assert_eq!(runner.submit(), Err(WebViewError::PlatformInit("no display".to_string())));
    // Not retried: the recorded error comes back every time.
    assert_eq!(runner.submit(), Err(WebViewError::PlatformInit("no display".to_string())));
    assert!(!runner.begin_init());
    assert_eq!(runner.submit(), Err(WebViewError::PlatformInit("no display".to_string())));
}

#[test]
fn run_on_main_thread_hands_back_the_body_result() {
    let r = run_on_main_thread(|| Ok(21u64 * 2));
    assert_eq!(r, Ok(42));
    let r: Result<u64, WebViewError> =
        run_on_main_thread(|| Err(WebViewError::UnderlyingEngine("boom".to_string())));
    assert_eq!(r, Err(WebViewError::UnderlyingEngine("boom".to_string())));
}

#[test]
fn pump_is_callable_anywhere() {
    wrywebview::pump_gtk_events();
}
