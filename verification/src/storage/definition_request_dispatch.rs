//! The decisions of a definition request dispatch.
//!
//! A dispatch repeats one round forever: it renews its access token when the token is
//! about to expire, waits for the next request, and then either forwards the request to
//! the definition provider or turns it down. The waiting and the talking to the outside
//! are done by the caller; this module decides, from the current state and what came
//! back from the outside, what the next state is and what is to be done.
use crate::config::consumer_config::ConsumerConfig;
use crate::error::{failure, Error, ErrorKind, ErrorView};
use crate::foreign::{
    amqp_wrapper_error_message, amqp_wrapper_error_text, new_amqp_wrapper, share_token,
};
use cooplan_lapin_wrapper::amqp_wrapper::AmqpWrapper;
use crate::logic::actions::definition_storage_action::{
    DefinitionReplier, DefinitionStorageAction, DefinitionStorageActionView,
};
use cooplan_auth::token::Token;
use std::sync::Arc;
use vstd::prelude::*;

verus! {

/// Where a dispatch stands in its round.
#[derive(Debug, Copy, Clone, PartialEq, Eq, Structural)]
pub enum DispatchStage {
    /// The token is to be renewed if it expires within the margin.
    AwaitingRenewal,
    /// The next request is awaited.
    AwaitingRequest,
}

/// The outside work that a dispatch waits for.
pub enum PendingWork {
    /// Renew `token` if it expires within `expiring_after_seconds` seconds.
    RenewToken { token: Arc<Token>, expiring_after_seconds: u64 },
    /// Receive the next request.
    ReceiveRequest,
}

/// What came back from the outside work.
pub enum DispatchEvent {
    /// The renewal gave this token (the same one where no renewal was needed).
    TokenRenewed(Arc<Token>),
    /// The renewal failed; the text describes why.
    TokenRenewalFailed(String),
    /// A request arrived.
    RequestReceived(DefinitionStorageAction),
    /// Receiving failed; the text describes why.
    ReceiveFailed(String),
}

/// The state that a dispatch reports to the state tracker.
pub enum StateReport {
    Valid,
    Error(String),
}

/// What a dispatch does about a request, or about a failure to receive one.
///
/// `ReceiveFailed` and `Rejected` are reported as an error state with their message;
/// `Rejected` also answers the request with an internal failure carrying the same
/// message. `QueryByVersion` and `QueryLatest` start the query on the definition
/// provider, and the dispatch then reports a valid state.
pub enum DispatchOutcome {
    ReceiveFailed { message: String },
    Rejected { message: String, replier: DefinitionReplier },
    QueryByVersion { version: String, token: Arc<Token>, replier: DefinitionReplier },
    QueryLatest { replier: DefinitionReplier },
}

/// The state of a dispatch, as it stands between two pieces of outside work.
pub struct DispatchLoop {
    token: Arc<Token>,
    token_expiration_margin_in_seconds: u64,
    renewal_failure: Option<Error>,
    stage: DispatchStage,
}

// ----- mathematical values -----

/// The value of a dispatch: its token, its renewal margin, the failure of the latest
/// renewal if it failed, and its stage.
pub struct DispatchModel {
    pub token: Arc<Token>,
    pub margin: u64,
    pub renewal_failure: Option<ErrorView>,
    pub stage: DispatchStage,
}

pub enum PendingWorkView {
    RenewToken { token: Arc<Token>, expiring_after_seconds: u64 },
    ReceiveRequest,
}

pub enum DispatchEventView {
    TokenRenewed(Arc<Token>),
    TokenRenewalFailed(Seq<char>),
    RequestReceived(DefinitionStorageActionView),
    ReceiveFailed(Seq<char>),
}

pub enum StateReportView {
    Valid,
    Error(Seq<char>),
}

pub enum DispatchOutcomeView {
    ReceiveFailed { message: Seq<char> },
    Rejected { message: Seq<char>, replier: DefinitionReplier },
    QueryByVersion { version: Seq<char>, token: Arc<Token>, replier: DefinitionReplier },
    QueryLatest { replier: DefinitionReplier },
}

impl View for DispatchLoop {
    type V = DispatchModel;

    closed spec fn view(&self) -> DispatchModel {
        DispatchModel {
            token: self.token,
            margin: self.token_expiration_margin_in_seconds,
            renewal_failure: match self.renewal_failure {
                Some(error) => Some(error@),
                None => None,
            },
            stage: self.stage,
        }
    }
}

impl View for PendingWork {
    type V = PendingWorkView;

    open spec fn view(&self) -> PendingWorkView {
        match self {
            PendingWork::RenewToken { token, expiring_after_seconds } => {
                PendingWorkView::RenewToken {
                    token: *token,
                    expiring_after_seconds: *expiring_after_seconds,
                }
            },
            PendingWork::ReceiveRequest => PendingWorkView::ReceiveRequest,
        }
    }
}

impl View for DispatchEvent {
    type V = DispatchEventView;

    open spec fn view(&self) -> DispatchEventView {
        match self {
            DispatchEvent::TokenRenewed(token) => DispatchEventView::TokenRenewed(*token),
            DispatchEvent::TokenRenewalFailed(detail) => DispatchEventView::TokenRenewalFailed(
                detail@,
            ),
            DispatchEvent::RequestReceived(action) => DispatchEventView::RequestReceived(action@),
            DispatchEvent::ReceiveFailed(detail) => DispatchEventView::ReceiveFailed(detail@),
        }
    }
}

impl View for StateReport {
    type V = StateReportView;

    open spec fn view(&self) -> StateReportView {
        match self {
            StateReport::Valid => StateReportView::Valid,
            StateReport::Error(message) => StateReportView::Error(message@),
        }
    }
}

impl View for DispatchOutcome {
    type V = DispatchOutcomeView;

    open spec fn view(&self) -> DispatchOutcomeView {
        match self {
            DispatchOutcome::ReceiveFailed { message } => DispatchOutcomeView::ReceiveFailed {
                message: message@,
            },
            DispatchOutcome::Rejected { message, replier } => DispatchOutcomeView::Rejected {
                message: message@,
                replier: *replier,
            },
            DispatchOutcome::QueryByVersion { version, token, replier } => {
                DispatchOutcomeView::QueryByVersion {
                    version: version@,
                    token: *token,
                    replier: *replier,
                }
            },
            DispatchOutcome::QueryLatest { replier } => DispatchOutcomeView::QueryLatest {
                replier: *replier,
            },
        }
    }
}

/// The value of an optional outcome.
pub open spec fn outcome_view(outcome: Option<DispatchOutcome>) -> Option<DispatchOutcomeView> {
    match outcome {
        Some(o) => Some(o@),
        None => None,
    }
}

// ----- the rules of a round -----

/// The failure recorded when the token could not be renewed.
pub open spec fn renewal_failure_of(detail: Seq<char>) -> ErrorView {
    ErrorView { kind: ErrorKind::ExternalFailure, message: "failed to get token: "@ + detail }
}

/// The message reported when no request could be received.
pub open spec fn receive_failure_message(detail: Seq<char>) -> Seq<char> {
    "failed to receive request: "@ + detail
}

/// The message with which a request for a version is turned down after `failure`.
pub open spec fn rejection_message(failure: ErrorView) -> Seq<char> {
    "failed to renew token: "@ + failure.message
}

/// The outside work that a dispatch in state `s` waits for.
pub open spec fn pending_work(s: DispatchModel) -> PendingWorkView {
    match s.stage {
        DispatchStage::AwaitingRenewal => PendingWorkView::RenewToken {
            token: s.token,
            expiring_after_seconds: s.margin,
        },
        DispatchStage::AwaitingRequest => PendingWorkView::ReceiveRequest,
    }
}

/// What a dispatch in state `s` does about the request `action`.
///
/// A request for a version needs the token: after a failed renewal it is turned down.
/// The latest definition is served whatever became of the token.
pub open spec fn handle_request(
    s: DispatchModel,
    action: DefinitionStorageActionView,
) -> DispatchOutcomeView {
    match action {
        DefinitionStorageActionView::FindByVersion { version, replier } => {
            match s.renewal_failure {
                Some(failure) => DispatchOutcomeView::Rejected {
                    message: rejection_message(failure),
                    replier,
                },
                None => DispatchOutcomeView::QueryByVersion { version, token: s.token, replier },
            }
        },
        DefinitionStorageActionView::FindLatest { replier } => DispatchOutcomeView::QueryLatest {
            replier,
        },
    }
}

/// The next state of a dispatch in state `s` once `event` came back, and what it does.
/// An event that the dispatch is not waiting for changes nothing.
pub open spec fn transition(s: DispatchModel, event: DispatchEventView) -> (
    DispatchModel,
    Option<DispatchOutcomeView>,
) {
    match s.stage {
        DispatchStage::AwaitingRenewal => match event {
            DispatchEventView::TokenRenewed(token) => (
                DispatchModel {
                    token,
                    renewal_failure: None,
                    stage: DispatchStage::AwaitingRequest,
                    ..s
                },
                None,
            ),
            DispatchEventView::TokenRenewalFailed(detail) => (
                DispatchModel {
                    renewal_failure: Some(renewal_failure_of(detail)),
                    stage: DispatchStage::AwaitingRequest,
                    ..s
                },
                None,
            ),
            _ => (s, None),
        },
        DispatchStage::AwaitingRequest => match event {
            DispatchEventView::RequestReceived(action) => (
                DispatchModel { stage: DispatchStage::AwaitingRenewal, ..s },
                Some(handle_request(s, action)),
            ),
            DispatchEventView::ReceiveFailed(detail) => (
                DispatchModel { stage: DispatchStage::AwaitingRenewal, ..s },
                Some(DispatchOutcomeView::ReceiveFailed { message: receive_failure_message(detail) }),
            ),
            _ => (s, None),
        },
    }
}

/// The state reported after `outcome`.
pub open spec fn report_of(outcome: DispatchOutcomeView) -> StateReportView {
    match outcome {
        DispatchOutcomeView::ReceiveFailed { message } => StateReportView::Error(message),
        DispatchOutcomeView::Rejected { message, .. } => StateReportView::Error(message),
        DispatchOutcomeView::QueryByVersion { .. } => StateReportView::Valid,
        DispatchOutcomeView::QueryLatest { .. } => StateReportView::Valid,
    }
}

/// The channel that `outcome` answers on, if any.
pub open spec fn replier_of(outcome: DispatchOutcomeView) -> Option<DefinitionReplier> {
    match outcome {
        DispatchOutcomeView::ReceiveFailed { .. } => None,
        DispatchOutcomeView::Rejected { replier, .. } => Some(replier),
        DispatchOutcomeView::QueryByVersion { replier, .. } => Some(replier),
        DispatchOutcomeView::QueryLatest { replier } => Some(replier),
    }
}

// ----- setting a dispatch up -----

/// The handle on the broker that a dispatch is made with, and the margin by which it
/// renews its token, both taken from `config`. A failure of the handle's construction
/// becomes an internal failure "failed to initialize amqp wrapper: " followed by the
/// handle's own message; the handle reports no failure, so the result is `Ok`.
pub fn try_prepare(config: ConsumerConfig) -> (prepared: Result<(AmqpWrapper, u64), Error>)
    ensures
        prepared is Ok,
        prepared matches Ok((_, margin)) ==> margin == config@.token_expiration_margin_in_seconds,
        prepared matches Err(error) ==> exists|wrapper_error|
            error@ == (ErrorView {
                kind: ErrorKind::InternalFailure,
                message: "failed to initialize amqp wrapper: "@ + #[trigger] amqp_wrapper_error_text(
                    wrapper_error,
                ),
            }),
{
    let token_expiration_margin_in_seconds = config.token_expiration_margin_in_seconds();
    match new_amqp_wrapper(config.owned_amqp_connect_config()) {
        Ok(amqp_wrapper) => Ok((amqp_wrapper, token_expiration_margin_in_seconds)),
        Err(error) => {
            let message = amqp_wrapper_error_message(error);
            Err(
                failure(
                    ErrorKind::InternalFailure,
                    "failed to initialize amqp wrapper: ",
                    message.as_str(),
                ),
            )
        },
    }
}

/// The failure when the first token cannot be had; `detail` says why.
pub fn token_acquisition_failure(detail: &str) -> (error: Error)
    ensures
        error@ == (ErrorView {
            kind: ErrorKind::InternalFailure,
            message: "failed to get token: "@ + detail@,
        }),
{
    failure(ErrorKind::InternalFailure, "failed to get token: ", detail)
}

/// The failure when no channel to the definition provider can be had; `detail` says
/// why.
pub fn channel_failure(detail: &str) -> (error: Error)
    ensures
        error@ == (ErrorView {
            kind: ErrorKind::InternalFailure,
            message: "failed to get channel from connection to definition provider: "@ + detail@,
        }),
{
    failure(
        ErrorKind::InternalFailure,
        "failed to get channel from connection to definition provider: ",
        detail,
    )
}

// ----- executable -----

impl DispatchLoop {
    /// A dispatch that holds `token` and renews it when it expires within
    /// `token_expiration_margin_in_seconds` seconds. It starts with a renewal.
    pub fn new(token: Arc<Token>, token_expiration_margin_in_seconds: u64) -> (dispatch: Self)
        ensures
            dispatch@ == (DispatchModel {
                token,
                margin: token_expiration_margin_in_seconds,
                renewal_failure: None,
                stage: DispatchStage::AwaitingRenewal,
            }),
    {
        DispatchLoop {
            token,
            token_expiration_margin_in_seconds,
            renewal_failure: None,
            stage: DispatchStage::AwaitingRenewal,
        }
    }

    /// The token currently held.
    pub fn token(&self) -> (token: &Arc<Token>)
        ensures
            *token == self@.token,
    {
        &self.token
    }

    /// The stage of the round that this dispatch is in.
    pub fn stage(&self) -> (stage: DispatchStage)
        ensures
            stage == self@.stage,
    {
        self.stage
    }

    /// The outside work that this dispatch waits for now.
    pub fn pending(&self) -> (work: PendingWork)
        ensures
            work@ == pending_work(self@),
    {
        match self.stage {
            DispatchStage::AwaitingRenewal => PendingWork::RenewToken {
                token: share_token(&self.token),
                expiring_after_seconds: self.token_expiration_margin_in_seconds,
            },
            DispatchStage::AwaitingRequest => PendingWork::ReceiveRequest,
        }
    }

    /// Takes in what came back from the outside work, moves to the next state, and
    /// says what is to be done.
    pub fn step(&mut self, event: DispatchEvent) -> (outcome: Option<DispatchOutcome>)
        ensures
            (final(self)@, outcome_view(outcome)) == transition(old(self)@, event@),
    {
        match self.stage {
            DispatchStage::AwaitingRenewal => match event {
                DispatchEvent::TokenRenewed(token) => {
                    self.token = token;
                    self.renewal_failure = None;
                    self.stage = DispatchStage::AwaitingRequest;
                    None
                },
                DispatchEvent::TokenRenewalFailed(detail) => {
                    self.renewal_failure = Some(
                        failure(ErrorKind::ExternalFailure, "failed to get token: ", detail.as_str()),
                    );
                    self.stage = DispatchStage::AwaitingRequest;
                    None
                },
                _ => None,
            },
            DispatchStage::AwaitingRequest => match event {
                DispatchEvent::RequestReceived(action) => {
                    self.stage = DispatchStage::AwaitingRenewal;
                    Some(self.handle(action))
                },
                DispatchEvent::ReceiveFailed(detail) => {
                    self.stage = DispatchStage::AwaitingRenewal;
                    let reported = failure(
                        ErrorKind::InternalFailure,
                        "failed to receive request: ",
                        detail.as_str(),
                    );
                    Some(DispatchOutcome::ReceiveFailed { message: reported.message })
                },
                _ => None,
            },
        }
    }

    fn handle(&self, action: DefinitionStorageAction) -> (outcome: DispatchOutcome)
        ensures
            outcome@ == handle_request(self@, action@),
    {
        match action {
            DefinitionStorageAction::FindByVersion { version, replier } => {
                match &self.renewal_failure {
                    Some(error) => {
                        let rejection = failure(
                            ErrorKind::InternalFailure,
                            "failed to renew token: ",
                            error.message.as_str(),
                        );
                        DispatchOutcome::Rejected { message: rejection.message, replier }
                    },
                    None => DispatchOutcome::QueryByVersion {
                        version,
                        token: share_token(&self.token),
                        replier,
                    },
                }
            },
            DefinitionStorageAction::FindLatest { replier } => DispatchOutcome::QueryLatest {
                replier,
            },
        }
    }
}

impl DispatchOutcome {
    /// The state that the dispatch reports after this outcome.
    pub fn state_report(&self) -> (report: StateReport)
        ensures
            report@ == report_of(self@),
    {
        match self {
            DispatchOutcome::ReceiveFailed { message } => StateReport::Error(message.clone()),
            DispatchOutcome::Rejected { message, .. } => StateReport::Error(message.clone()),
            DispatchOutcome::QueryByVersion { .. } => StateReport::Valid,
            DispatchOutcome::QueryLatest { .. } => StateReport::Valid,
        }
    }
}

// ----- laws of a round -----

/// A request for a version that arrives after the token could not be renewed is turned
/// down: it is answered on its own channel with "failed to renew token: failed to get
/// token: " and the renewal's failure text, and that message is reported as an error
/// state. The round then starts over with a renewal.
pub proof fn lemma_version_request_rejected_after_failed_renewal(
    s: DispatchModel,
    detail: Seq<char>,
    version: Seq<char>,
    replier: DefinitionReplier,
)
    requires
        s.stage == DispatchStage::AwaitingRenewal,
    ensures
        ({
            let (s1, o1) = transition(s, DispatchEventView::TokenRenewalFailed(detail));
            let request = DefinitionStorageActionView::FindByVersion { version, replier };
            let (s2, o2) = transition(s1, DispatchEventView::RequestReceived(request));
            let message = "failed to renew token: "@ + ("failed to get token: "@ + detail);
            &&& o1 is None
            &&& o2 == Some(DispatchOutcomeView::Rejected { message, replier })
            &&& report_of(o2.unwrap()) == StateReportView::Error(message)
            &&& s2.stage == DispatchStage::AwaitingRenewal
            &&& s2.token == s.token
        }),
{
}

/// A request for a version that arrives after a successful renewal is forwarded with
/// exactly the token that the renewal gave, the requested version and its own channel,
/// and the dispatch reports a valid state.
pub proof fn lemma_version_request_uses_renewed_token(
    s: DispatchModel,
    token: Arc<Token>,
    version: Seq<char>,
    replier: DefinitionReplier,
)
    requires
        s.stage == DispatchStage::AwaitingRenewal,
    ensures
        ({
            let (s1, o1) = transition(s, DispatchEventView::TokenRenewed(token));
            let request = DefinitionStorageActionView::FindByVersion { version, replier };
            let (s2, o2) = transition(s1, DispatchEventView::RequestReceived(request));
            &&& o1 is None
            &&& s1.token == token
            &&& o2 == Some(DispatchOutcomeView::QueryByVersion { version, token, replier })
            &&& report_of(o2.unwrap()) == StateReportView::Valid
            &&& s2.token == token
        }),
{
}

/// The latest definition is served whatever became of the token: a request for it is
/// forwarded on its own channel and a valid state is reported.
pub proof fn lemma_latest_request_always_served(s: DispatchModel, replier: DefinitionReplier)
    requires
        s.stage == DispatchStage::AwaitingRequest,
    ensures
        ({
            let request = DefinitionStorageActionView::FindLatest { replier };
            let (s1, o) = transition(s, DispatchEventView::RequestReceived(request));
            &&& o == Some(DispatchOutcomeView::QueryLatest { replier })
            &&& report_of(o.unwrap()) == StateReportView::Valid
            &&& s1.stage == DispatchStage::AwaitingRenewal
        }),
{
}

/// Every request that a waiting dispatch receives is dealt with exactly once, on the
/// channel that came with it: the outcome holds that channel and no other.
pub proof fn lemma_every_request_answered_on_its_channel(
    s: DispatchModel,
    request: DefinitionStorageActionView,
)
    requires
        s.stage == DispatchStage::AwaitingRequest,
    ensures
        ({
            let (s1, o) = transition(s, DispatchEventView::RequestReceived(request));
            &&& o is Some
            &&& replier_of(o.unwrap()) == Some(request.replier())
        }),
{
}

/// A valid state is reported exactly when a query was started, and an error state
/// otherwise, with the message of the outcome.
pub proof fn lemma_valid_reported_iff_query_started(outcome: DispatchOutcomeView)
    ensures
        (report_of(outcome) == StateReportView::Valid) <==> (outcome is QueryByVersion
            || outcome is QueryLatest),
{
}

/// The token is renewed before every request: the dispatch only comes to wait for a
/// request through a renewal (successful or not), and each request, or failure to
/// receive one, sends it back to the renewal.
pub proof fn lemma_renewal_before_every_request(s: DispatchModel, event: DispatchEventView)
    ensures
        ({
            let (s1, o) = transition(s, event);
            &&& (s.stage == DispatchStage::AwaitingRenewal && s1.stage
                == DispatchStage::AwaitingRequest) ==> (event is TokenRenewed
                || event is TokenRenewalFailed)
            &&& (s.stage == DispatchStage::AwaitingRequest && (event is RequestReceived
                || event is ReceiveFailed)) ==> s1.stage == DispatchStage::AwaitingRenewal
            &&& o is Some ==> s.stage == DispatchStage::AwaitingRequest
        }),
{
}

/// An event that the dispatch is not waiting for changes nothing and does nothing.
pub proof fn lemma_unexpected_event_ignored(s: DispatchModel, event: DispatchEventView)
    requires
        (s.stage == DispatchStage::AwaitingRenewal) == (event is RequestReceived
            || event is ReceiveFailed),
    ensures
        transition(s, event) == (s, None::<DispatchOutcomeView>),
{
}

/// The margin by which the token is renewed early never changes, and the token only
/// changes on a successful renewal, to the token that it gave.
pub proof fn lemma_margin_kept_token_changed_only_by_renewal(
    s: DispatchModel,
    event: DispatchEventView,
)
    ensures
        ({
            let (s1, o) = transition(s, event);
            &&& s1.margin == s.margin
            &&& s1.token != s.token ==> event == DispatchEventView::TokenRenewed(s1.token)
        }),
{
}

/// What a dispatch waits for depends on its stage alone, never on whether the last
/// renewal failed: while awaiting a request it receives the next request, and while
/// awaiting a renewal it renews the token it holds by its margin.
pub proof fn lemma_pending_work_by_stage(s: DispatchModel)
    ensures
        (pending_work(s) == PendingWorkView::ReceiveRequest) <==> s.stage
            == DispatchStage::AwaitingRequest,
        s.stage == DispatchStage::AwaitingRenewal ==> pending_work(s) == (PendingWorkView::RenewToken {
            token: s.token,
            expiring_after_seconds: s.margin,
        }),
{
}

/// After a renewal, successful or not, the dispatch goes on to receive the next
/// request; after a request, or a failure to receive one, it goes back to renewing its
/// token by the same margin.
pub proof fn lemma_pending_work_after_each_event(s: DispatchModel, event: DispatchEventView)
    ensures
        ({
            let (s1, o) = transition(s, event);
            &&& (s.stage == DispatchStage::AwaitingRenewal && (event is TokenRenewed
                || event is TokenRenewalFailed)) ==> pending_work(s1)
                == PendingWorkView::ReceiveRequest
            &&& (s.stage == DispatchStage::AwaitingRequest && (event is RequestReceived
                || event is ReceiveFailed)) ==> pending_work(s1) == (PendingWorkView::RenewToken {
                token: s.token,
                expiring_after_seconds: s.margin,
            })
        }),
{
}

} // verus!
