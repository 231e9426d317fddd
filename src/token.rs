use vstd::prelude::*;

use tokio_util::sync::CancellationToken;

verus! {

/// tokio_util's cancellation token: a handle that a running generation
/// watches, and that is cancelled when the generation is superseded.
#[verifier::external_type_specification]
#[verifier::external_body]
pub struct ExCancellationToken(CancellationToken);

/// Relies on tokio_util's CancellationToken::new, which makes a token that no
/// one has cancelled yet and shares it with no other token.
pub assume_specification[ CancellationToken::new ]() -> CancellationToken;

/// Relies on tokio_util's CancellationToken::is_cancelled, which reports
/// whether the token has been cancelled; another holder may cancel it at any
/// time, so nothing is promised of the answer.
pub assume_specification[ CancellationToken::is_cancelled ](token: &CancellationToken) -> bool;

} // verus!
