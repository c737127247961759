//! The form of a factory denom.

use crate::cw20_indexer::error::{ContractResult, Cw20IndexerError, Cw20IndexerErrorView};
use crate::text::{chars_of, same_text, split, split_text, texts_view};
use vstd::prelude::*;

verus! {

/// Whether `denom` is a factory denom of `sender`: it has three segments
/// between slashes, the first is `factory` and the second is `sender`.
pub open spec fn validate_denom_spec(denom: Seq<char>, sender: Seq<char>) -> Result<
    (),
    Cw20IndexerErrorView,
> {
    let segments = split_text(denom, '/');
    if segments.len() != 3 {
        Err(Cw20IndexerErrorView::MalformedIdentifier { denom })
    } else if segments[1] != sender || segments[0] != "factory"@ {
        Err(Cw20IndexerErrorView::IdentityMismatch { denom })
    } else {
        Ok(())
    }
}

/// Checks that `denom` is a factory denom of `sender`.
pub fn validate_denom(denom: &str, sender: &str) -> (result: ContractResult<()>)
    ensures
        match validate_denom_spec(denom@, sender@) {
            Ok(_) => result is Ok,
            Err(e) => result is Err && result->Err_0@ == e,
        },
{
    let text = chars_of(denom);
    let segments = split(&text, '/');
    if segments.len() != 3 {
        return Err(Cw20IndexerError::MalformedIdentifier { denom: denom.to_owned() });
    }
    let first = &segments[0];
    let second = &segments[1];
    assert(first@ == texts_view(segments@)[0]);
    assert(second@ == texts_view(segments@)[1]);
    let issuer = chars_of(sender);
    let factory = chars_of("factory");
    if !same_text(second, &issuer) || !same_text(first, &factory) {
        return Err(Cw20IndexerError::IdentityMismatch { denom: denom.to_owned() });
    }
    Ok(())
}

} // verus!
