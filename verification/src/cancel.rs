//! The cancellation tokens of `tokio_util`, as far as the machines use them.
//!
//! A token is shared: any clone, and any ancestor, may cancel it from another
//! task at any moment. Nothing is therefore claimed of what a read returns;
//! what is stated is from which token a token was derived.

use tokio_util::sync::CancellationToken;
use vstd::prelude::*;

verus! {

/// `tokio_util::sync::CancellationToken`, opaque to the verifier.
#[verifier::external_type_specification]
#[verifier::external_body]
pub struct ExCancellationToken(CancellationToken);

/// `CancellationToken::new` returns the root of a new cancellation tree.
/// Nothing is claimed of the token.
pub assume_specification[ CancellationToken::new ]() -> (token: CancellationToken);

/// That `child` was derived from `parent` by `CancellationToken::child_token`:
/// it was registered under the parent, so that the parent's cancellation
/// cancels it, or it was born cancelled because the parent already was.
/// Cancelling the child leaves the parent as it is.
pub uninterp spec fn derived_from(child: CancellationToken, parent: CancellationToken) -> bool;

/// `CancellationToken::child_token` derives a token from this one. The
/// result stands in the relation [`derived_from`] to the token it was made
/// from; nothing is claimed of its state.
pub assume_specification[ CancellationToken::child_token ](
    token: &CancellationToken,
) -> (child: CancellationToken)
    ensures
        derived_from(child, *token),
;

/// `CancellationToken::cancel` cancels the token and all that derive from it.
/// It returns nothing, and the token's state is not visible to the verifier.
pub assume_specification[ CancellationToken::cancel ](token: &CancellationToken);

/// `CancellationToken::is_cancelled` reads the token's flag at this moment.
/// Nothing is claimed of the answer: another task may have cancelled the token.
pub assume_specification[ CancellationToken::is_cancelled ](token: &CancellationToken) -> (cancelled: bool);

} // verus!
