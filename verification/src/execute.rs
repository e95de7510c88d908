//! The list of accepted assets and the one operation that extends it.

use crate::chain::{Env, MessageInfo, Response, ResponseView};
use crate::error::{describe, plain, refused, ContractError};
use crate::state::{LEVERAGE_CONTRACT_OWNER, LISTED_TOKEN};
use crate::store::{
    balances, contract_owner, listed_tokens, load_listed_tokens, load_owner, order_books,
    save_listed_tokens, texts, Store,
};
use vstd::prelude::*;

verus! {

/// What `list_token_on_leverage` does to the store and returns. The asset
/// is appended whether or not the list names it already.
///
/// Only the owner may list. Where no owner can be read, the call is
/// refused with the text of the storage's error. Where the list cannot be
/// read, the call is refused. A refusal leaves the list as it was; any
/// other call goes through.
pub open spec fn list_token_on_leverage_post(
    before: &Store<'_>,
    after: &Store<'_>,
    info: MessageInfo,
    token_address: String,
    r: Result<Response, ContractError>,
) -> bool {
    let listed = listed_tokens(before);
    &&& balances(after) == balances(before)
    &&& order_books(after) == order_books(before)
    &&& contract_owner(after) == contract_owner(before)
    &&& match contract_owner(before) {
        None => r matches Err(ContractError::GenericError { .. }) && listed_tokens(after) == listed,
        Some(owner) => if owner != info.sender@ {
            refused(r, plain(ContractError::Unauthorized {})) && listed_tokens(after) == listed
        } else if listed is None {
            refused(r, plain(ContractError::UpdateTokenListFailed {})) && listed_tokens(after)
                == listed
        } else {
            &&& r matches Ok(response)
            &&& response@ == (ResponseView {
                attributes: seq![("method"@, "list_token_on_leverage"@)],
                messages: seq![],
            })
            &&& listed_tokens(after) == Some(listed->0.push(token_address@))
        },
    }
}

/// Adds `token_address` to the list of accepted assets, on behalf of the
/// owner.
pub fn list_token_on_leverage(store: &mut Store<'_>, _env: Env, info: MessageInfo, token_address: String) -> (r:
    Result<Response, ContractError>)
    ensures
        list_token_on_leverage_post(old(store), final(store), info, token_address, r),
{
    match load_owner(store, LEVERAGE_CONTRACT_OWNER) {
        Ok(owner) => {
            if owner != info.sender {
                return Err(ContractError::Unauthorized {});
            }
        },
        Err(err) => {
            return Err(ContractError::GenericError { error: describe(&err) });
        },
    }
    let mut tokens = match load_listed_tokens(store, LISTED_TOKEN) {
        Ok(tokens) => tokens,
        Err(_) => {
            return Err(ContractError::UpdateTokenListFailed {});
        },
    };
    let ghost listed = texts(tokens@);
    tokens.push(token_address);
    assert(texts(tokens@) =~= listed.push(token_address@));
    match save_listed_tokens(store, LISTED_TOKEN, &tokens) {
        Ok(()) => {},
        Err(_) => {
            return Err(ContractError::UpdateTokenListFailed {});
        },
    }
    let response = Response::new().add_attribute("method", "list_token_on_leverage");
    assert(response@.attributes =~= seq![("method"@, "list_token_on_leverage"@)]);
    Ok(response)
}

} // verus!
