use cooplan_auth::token::Token;
use cooplan_definition_consumer::logic::actions::definition_storage_action::{
    DefinitionReplier, DefinitionStorageAction,
};
use cooplan_definition_consumer::storage::definition_request_dispatch::{
    DispatchEvent, DispatchLoop, DispatchOutcome, DispatchStage, PendingWork, StateReport,
};
use std::sync::Arc;
use std::time::Instant;

fn token(value: &str) -> Arc<Token> {
    Arc::new(Token::new(value.to_string(), Instant::now(), 3600))
}

fn replier() -> (
    DefinitionReplier,
    tokio::sync::oneshot::Receiver<
        Result<cooplan_definitions_lib::definition::Definition, cooplan_amqp_api_consumer::error::Error>,
    >,
) {
    tokio::sync::oneshot::channel()
}

#[test]
fn a_round_starts_with_a_renewal_by_the_margin() {
    let dispatch = DispatchLoop::new(token("first"), 30);
    assert_eq!(dispatch.stage(), DispatchStage::AwaitingRenewal);
    match dispatch.pending() {
        PendingWork::RenewToken { token, expiring_after_seconds } => {
            assert_eq!(token.value(), "first");
            assert_eq!(expiring_after_seconds, 30);
        }
        PendingWork::ReceiveRequest => panic!("should renew first"),
    }
}

#[test]
fn version_request_after_renewal_uses_the_renewed_token() {
    let mut dispatch = DispatchLoop::new(token("old"), 10);
    assert!(dispatch.step(DispatchEvent::TokenRenewed(token("new"))).is_none());
    assert_eq!(dispatch.stage(), DispatchStage::AwaitingRequest);
    assert!(matches!(dispatch.pending(), PendingWork::ReceiveRequest));
    let (tx, _rx) = replier();
    let outcome = dispatch
        .step(DispatchEvent::RequestReceived(DefinitionStorageAction::FindByVersion {
            version: "v7".to_string(),
            replier: tx,
        }))
        .unwrap();
    assert!(matches!(outcome.state_report(), StateReport::Valid));
    match outcome {
        DispatchOutcome::QueryByVersion { version, token, .. } => {
            assert_eq!(version, "v7");
            assert_eq!(token.value(), "new");
        }
        _ => panic!("should query"),
    }
    assert_eq!(dispatch.stage(), DispatchStage::AwaitingRenewal);
    assert_eq!(dispatch.token().value(), "new");
}

#[test]
fn version_request_after_failed_renewal_is_rejected() {
    let mut dispatch = DispatchLoop::new(token("old"), 10);
    assert!(dispatch
        .step(DispatchEvent::TokenRenewalFailed("provider down".to_string()))
        .is_none());
    let (tx, rx) = replier();
    let outcome = dispatch
        .step(DispatchEvent::RequestReceived(DefinitionStorageAction::FindByVersion {
            version: "v7".to_string(),
            replier: tx,
        }))
        .unwrap();
    match outcome.state_report() {
        StateReport::Error(message) => {
            assert_eq!(message, "failed to renew token: failed to get token: provider down")
        }
        StateReport::Valid => panic!("should report an error"),
    }
    match outcome {
        DispatchOutcome::Rejected { message, replier } => {
            assert_eq!(message, "failed to renew token: failed to get token: provider down");
            // the replier handed back is the one that came with the request
            replier
                .send(Err(cooplan_amqp_api_consumer::error::Error::new(
                    cooplan_amqp_api_consumer::error::ErrorKind::InternalFailure,
                    message,
                )))
                .ok()
                .unwrap();
        }
        _ => panic!("should reject"),
    }
    let answer = rx.blocking_recv().unwrap();
    assert!(answer.is_err());
    assert_eq!(dispatch.token().value(), "old");
}

#[test]
fn latest_request_is_served_even_without_a_token() {
    let mut dispatch = DispatchLoop::new(token("old"), 10);
    dispatch.step(DispatchEvent::TokenRenewalFailed("nope".to_string()));
    let (tx, _rx) = replier();
    let outcome = dispatch
        .step(DispatchEvent::RequestReceived(DefinitionStorageAction::FindLatest { replier: tx }))
        .unwrap();
    assert!(matches!(outcome, DispatchOutcome::QueryLatest { .. }));
    assert!(matches!(outcome.state_report(), StateReport::Valid));
}

#[test]
fn receive_failure_is_reported_and_the_round_starts_over() {
    let mut dispatch = DispatchLoop::new(token("t"), 10);
    dispatch.step(DispatchEvent::TokenRenewed(token("t2")));
    let outcome = dispatch
        .step(DispatchEvent::ReceiveFailed("receiving from an empty and closed channel".to_string()))
        .unwrap();
    match outcome {
        DispatchOutcome::ReceiveFailed { ref message } => assert_eq!(
            message,
            "failed to receive request: receiving from an empty and closed channel"
        ),
        _ => panic!("should report the failure"),
    }
    assert!(matches!(outcome.state_report(), StateReport::Error(_)));
    assert_eq!(dispatch.stage(), DispatchStage::AwaitingRenewal);
}

#[test]
fn a_failed_renewal_lasts_one_round_only() {
    let mut dispatch = DispatchLoop::new(token("t"), 10);
    dispatch.step(DispatchEvent::TokenRenewalFailed("x".to_string()));
    let (tx, _rx) = replier();
    dispatch.step(DispatchEvent::RequestReceived(DefinitionStorageAction::FindLatest { replier: tx }));
    dispatch.step(DispatchEvent::TokenRenewed(token("t3")));
    let (tx, _rx) = replier();
    let outcome = dispatch
        .step(DispatchEvent::RequestReceived(DefinitionStorageAction::FindByVersion {
            version: "v".to_string(),
            replier: tx,
        }))
        .unwrap();
    assert!(matches!(outcome, DispatchOutcome::QueryByVersion { .. }));
}

#[test]
fn unexpected_events_are_ignored() {
    let mut dispatch = DispatchLoop::new(token("t"), 10);
    assert!(dispatch.step(DispatchEvent::ReceiveFailed("x".to_string())).is_none());
    assert_eq!(dispatch.stage(), DispatchStage::AwaitingRenewal);
    dispatch.step(DispatchEvent::TokenRenewed(token("t2")));
    assert!(dispatch.step(DispatchEvent::TokenRenewed(token("t3"))).is_none());
    assert_eq!(dispatch.token().value(), "t2");
    assert_eq!(dispatch.stage(), DispatchStage::AwaitingRequest);
}
