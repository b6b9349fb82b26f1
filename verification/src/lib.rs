pub mod config;
pub mod error;
pub mod foreign;
pub mod logic;
pub mod storage;

use crate::error::{failure, Error, ErrorKind, ErrorView};
use vstd::prelude::*;

verus! {

/// The failure when the consumer's settings cannot be had; `detail` says why.
pub fn consumer_config_failure(detail: &str) -> (error: Error)
    ensures
        error@ == (ErrorView {
            kind: ErrorKind::AutoConfigFailure,
            message: "failed to generate consumer config: "@ + detail@,
        }),
{
    failure(ErrorKind::AutoConfigFailure, "failed to generate consumer config: ", detail)
}

/// The failure when the description of the provider's endpoints cannot be had; `detail`
/// says why.
pub fn api_consumer_config_failure(detail: &str) -> (error: Error)
    ensures
        error@ == (ErrorView {
            kind: ErrorKind::AutoConfigFailure,
            message: "failed to generate api consumer config: "@ + detail@,
        }),
{
    failure(ErrorKind::AutoConfigFailure, "failed to generate api consumer config: ", detail)
}

} // verus!
