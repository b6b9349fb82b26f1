//! Declarations of the outside types that the library carries through its logic.
use cooplan_auth::error::Error as AuthError;
use cooplan_auth::error::ErrorKind as AuthErrorKind;
use cooplan_amqp_api_consumer::error::Error as ApiError;
use cooplan_auth::token::Token;
use cooplan_definitions_lib::definition::Definition;
use cooplan_lapin_wrapper::amqp_wrapper::AmqpWrapper;
use cooplan_lapin_wrapper::config::amqp_connect_config::AmqpConnectConfig;
use cooplan_lapin_wrapper::error::Error as AmqpWrapperError;
use std::sync::Arc;
use vstd::prelude::*;

verus! {

/// Kind of a failure reported by the identity provider client.
#[verifier::external_type_specification]
#[verifier::external_body]
pub struct ExAuthErrorKind(AuthErrorKind);

/// Failure reported by the identity provider client.
#[verifier::external_type_specification]
#[verifier::external_body]
pub struct ExAuthError(AuthError);

/// The characters of the message that an identity provider failure holds.
pub uninterp spec fn auth_error_text(error: AuthError) -> Seq<char>;

/// Moves the message out of an identity provider failure: the result is the failure's
/// public `message` field, named `auth_error_text`.
#[verifier::external_body]
pub(crate) fn auth_error_message(error: AuthError) -> (message: String)
    ensures
        message@ == auth_error_text(error),
{
    error.message
}

/// An access token handed out by the identity provider.
#[verifier::external_type_specification]
#[verifier::external_body]
pub struct ExToken(Token);

/// A definition of the catalogue, as the definition provider serves it.
#[verifier::external_type_specification]
#[verifier::external_body]
pub struct ExDefinition(Definition);

/// A failure reported by the AMQP api consumer.
#[verifier::external_type_specification]
#[verifier::external_body]
pub struct ExApiError(ApiError);

/// The sending half of a one-shot channel: where the answer to a request goes.
#[verifier::external_type_specification]
#[verifier::external_body]
#[verifier::reject_recursive_types(T)]
pub struct ExOneshotSender<T>(tokio::sync::oneshot::Sender<T>);

/// The sending half of a watch channel.
#[verifier::external_type_specification]
#[verifier::external_body]
#[verifier::reject_recursive_types(T)]
pub struct ExWatchSender<T>(tokio::sync::watch::Sender<T>);

/// The settings by which a connection to the AMQP broker is made.
#[verifier::external_type_specification]
#[verifier::external_body]
pub struct ExAmqpConnectConfig(AmqpConnectConfig);

/// A lazily connecting handle on the AMQP broker.
#[verifier::external_type_specification]
#[verifier::external_body]
pub struct ExAmqpWrapper(AmqpWrapper);

/// A failure reported by the AMQP wrapper.
#[verifier::external_type_specification]
#[verifier::external_body]
pub struct ExAmqpWrapperError(AmqpWrapperError);

/// `AmqpWrapper::try_new` only stores the settings, with no connection and no channel
/// yet, and returns `Ok` on every input: that much is claimed. That the wrapper holds
/// exactly `connect_config` is left unsaid, as the wrapper is opaque here.
#[verifier::external_body]
pub(crate) fn new_amqp_wrapper(connect_config: AmqpConnectConfig) -> (wrapper: Result<
    AmqpWrapper,
    AmqpWrapperError,
>)
    ensures
        wrapper is Ok,
{
    AmqpWrapper::try_new(connect_config)
}

/// The characters of the message that an AMQP wrapper failure holds.
pub uninterp spec fn amqp_wrapper_error_text(error: AmqpWrapperError) -> Seq<char>;

/// Moves the message out of an AMQP wrapper failure: the result is the failure's
/// public `message` field, named `amqp_wrapper_error_text`.
#[verifier::external_body]
pub(crate) fn amqp_wrapper_error_message(error: AmqpWrapperError) -> (message: String)
    ensures
        message@ == amqp_wrapper_error_text(error),
{
    error.message
}

/// `AmqpConnectConfig`'s `Clone` copies the broker's address, the connection
/// properties and the TLS settings; nothing is claimed of the copy, which is opaque here.
pub assume_specification[ <AmqpConnectConfig as Clone>::clone ](
    connect_config: &AmqpConnectConfig,
) -> AmqpConnectConfig;

/// Shares a token: `Arc::clone` makes another pointer to the same allocation, so the
/// result stands for the very token it was made from.
#[verifier::external_body]
pub(crate) fn share_token(token: &Arc<Token>) -> (shared: Arc<Token>)
    ensures
        shared == *token,
{
    Arc::clone(token)
}

} // verus!
