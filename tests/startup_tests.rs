use lightning_console::{
    launch, needs_settlement_wait, resolve_identity, Launch, Stage, Startup, StartupAction,
    StartupEvent, StartupFailure, TEST_INVOICE_AMOUNT_SATS,
};

#[test]
fn no_mnemonic_shows_fresh_phrase() {
    match launch(None) {
        Launch::ShowFreshMnemonic { phrase } => {
            assert_eq!(phrase.split(' ').count(), 12);
            assert!(resolve_identity(&phrase).is_ok());
        }
        other => panic!("unexpected {:?}", other),
    }
    assert!(matches!(launch(Some(String::new())), Launch::ShowFreshMnemonic { .. }));
}

#[test]
fn set_mnemonic_is_resolved() {
    assert_eq!(
        launch(Some("some words".to_string())),
        Launch::Resolve { phrase: "some words".to_string() }
    );
}

#[test]
fn settlement_wait_rule() {
    assert!(needs_settlement_wait(true, 5000));
    assert!(needs_settlement_wait(false, 0));
    assert!(!needs_settlement_wait(false, 1));
}

#[test]
fn recovered_funded_node_goes_straight_to_dispatch() {
    let mut s = Startup::new(false);
    assert_eq!(s.on_event(StartupEvent::SessionStarted), StartupAction::QueryNode);
    assert_eq!(
        s.on_event(StartupEvent::NodeInfo { max_payable_msat: 250_000 }),
        StartupAction::EnterDispatch
    );
    assert_eq!(s.stage, Stage::Dispatching);
}

#[test]
fn new_node_waits_for_settlement() {
    let mut s = Startup::new(true);
    s.on_event(StartupEvent::SessionStarted);
    assert_eq!(
        s.on_event(StartupEvent::NodeInfo { max_payable_msat: 250_000 }),
        StartupAction::CreateInvoice { amount_sats: TEST_INVOICE_AMOUNT_SATS }
    );
    assert_eq!(TEST_INVOICE_AMOUNT_SATS, 10000);
    assert_eq!(s.on_event(StartupEvent::InvoiceCreated), StartupAction::AwaitSettlement);
    assert_eq!(s.on_event(StartupEvent::NodeInfoMissing), StartupAction::Nothing);
    assert_eq!(s.stage, Stage::AwaitingSettlement);
    assert_eq!(s.on_event(StartupEvent::Settled), StartupAction::EnterDispatch);
    assert_eq!(s.stage, Stage::Dispatching);
}

#[test]
fn empty_recovered_node_waits_for_settlement() {
    let mut s = Startup::new(false);
    s.on_event(StartupEvent::SessionStarted);
    assert_eq!(
        s.on_event(StartupEvent::NodeInfo { max_payable_msat: 0 }),
        StartupAction::CreateInvoice { amount_sats: 10000 }
    );
}

#[test]
fn startup_failures_abort() {
    let mut s = Startup::new(false);
    assert_eq!(
        s.on_event(StartupEvent::SessionFailed),
        StartupAction::Abort { failure: StartupFailure::SessionStart }
    );
    assert_eq!(s.stage, Stage::Failed);

    let mut s = Startup::new(false);
    s.on_event(StartupEvent::SessionStarted);
    assert_eq!(
        s.on_event(StartupEvent::NodeInfoMissing),
        StartupAction::Abort { failure: StartupFailure::NodeInfoMissing }
    );

    let mut s = Startup::new(false);
    s.on_event(StartupEvent::SessionStarted);
    assert_eq!(
        s.on_event(StartupEvent::NodeQueryFailed),
        StartupAction::Abort { failure: StartupFailure::NodeQuery }
    );

    let mut s = Startup::new(true);
    s.on_event(StartupEvent::SessionStarted);
    s.on_event(StartupEvent::NodeInfo { max_payable_msat: 0 });
    assert_eq!(
        s.on_event(StartupEvent::InvoiceFailed),
        StartupAction::Abort { failure: StartupFailure::InvoiceCreation }
    );
}
