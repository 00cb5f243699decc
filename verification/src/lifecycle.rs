//! Trusted boundary to tokio_util's cancellation token: a room's teardown
//! signal, modelled as an observable flag with no required subscriber.

use vstd::prelude::*;
use tokio_util::sync::CancellationToken;

verus! {

#[verifier::external_type_specification]
#[verifier::external_body]
pub struct ExCancellationToken(CancellationToken);

/// Whether a token has been triggered.
pub uninterp spec fn flagged(t: CancellationToken) -> bool;

/// Relies on tokio_util::sync::CancellationToken::new: starts untriggered.
#[verifier::external_body]
pub fn token_new() -> (r: CancellationToken)
    ensures
        !flagged(r),
{
    CancellationToken::new()
}

/// Relies on tokio_util::sync::CancellationToken::cancel.
#[verifier::external_body]
pub fn token_cancel(t: &mut CancellationToken)
    ensures
        flagged(*final(t)),
{
    t.cancel();
}

/// Relies on tokio_util::sync::CancellationToken::is_cancelled.
#[verifier::external_body]
pub fn token_flagged(t: &CancellationToken) -> (r: bool)
    ensures
        r == flagged(*t),
{
    t.is_cancelled()
}

} // verus!
