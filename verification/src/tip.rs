//! Picking one tip account out of a response.

use vstd::prelude::*;
use rand::seq::SliceRandom;
use crate::error::SdkError;
use crate::json::{JsonModel, JsonValue};
use crate::sdk::JitoJsonRpcSDK;

verus! {

/// The tip accounts that a response offers: the elements of its `result`
/// field, which must be an array and must not be empty.
pub open spec fn tip_candidates(response: JsonModel) -> Result<Seq<JsonModel>, SdkError> {
    match response.field("result"@) {
        Some(JsonModel::Array(accounts)) => if accounts.len() == 0 {
            Err(SdkError::NoTipAccounts)
        } else {
            Ok(accounts)
        },
        _ => Err(SdkError::TipAccountsNotArray),
    }
}

/// Whether `outcome` is what a pick hands back: the text of the picked
/// account, an error for a picked account that is no string, and an error
/// of its own where nothing was picked.
pub open spec fn is_outcome_of(outcome: Result<String, SdkError>, picked: Option<JsonModel>) -> bool {
    match picked {
        Some(JsonModel::String(text)) => outcome matches Ok(s) && s@ == text,
        Some(_) => outcome == Err::<String, SdkError>(SdkError::TipAccountNotString),
        None => outcome == Err::<String, SdkError>(SdkError::NoAccountChosen),
    }
}

/// Hands `items` to `rand::seq::SliceRandom::choose` with the generator of
/// the calling thread (`rand::thread_rng`). The contract says what the source
/// of `choose` shows for a slice: nothing for an empty one, else a reference
/// to the element at an index below the length. Which index is left open.
/// The generator seeds itself from the system on first use and ends the
/// thread if the system gives it no seed.
#[verifier::external_body]
fn choose_random<T>(items: &Vec<T>) -> (picked: Option<&T>)
    ensures
        items.len() == 0 ==> picked is None,
        items.len() > 0 ==> picked is Some,
        picked matches Some(item) ==> exists|i: int|
            0 <= i < items.len() && #[trigger] items[i] == *item,
{
    items.choose(&mut rand::thread_rng())
}

/// The tip accounts that `response` offers, or the reason why it offers
/// none.
pub fn tip_accounts(response: &JsonValue) -> (accounts: Result<&Vec<JsonValue>, SdkError>)
    ensures
        match tip_candidates(response@) {
            Ok(models) => accounts matches Ok(found) && JsonValue::Array(*found)@
                == JsonModel::Array(models),
            Err(e) => accounts == Err::<&Vec<JsonValue>, SdkError>(e),
        },
{
    let listed = match response.get("result") {
        Some(result) => result.as_array(),
        None => None,
    };
    match listed {
        Some(found) => {
            if found.len() == 0 {
                Err(SdkError::NoTipAccounts)
            } else {
                Ok(found)
            }
        },
        None => Err(SdkError::TipAccountsNotArray),
    }
}

/// What is handed back once an account was picked, or none was.
pub fn account_from_choice(choice: Option<&JsonValue>) -> (outcome: Result<String, SdkError>)
    ensures
        is_outcome_of(
            outcome,
            match choice {
                Some(value) => Some(value@),
                None => None,
            },
        ),
{
    match choice {
        Some(value) => match value.as_str() {
            Some(text) => Ok(text.to_owned()),
            None => Err(SdkError::TipAccountNotString),
        },
        None => Err(SdkError::NoAccountChosen),
    }
}

impl JitoJsonRpcSDK {
    /// One tip account of `response`, picked at random.
    ///
    /// Fails where the response offers no accounts. Otherwise one of the
    /// offered accounts is picked and the outcome is that of the pick: its
    /// text, or an error if it is no string. So a response that offers only
    /// strings always gives one of them.
    pub fn get_random_tip_account(response: &JsonValue) -> (outcome: Result<String, SdkError>)
        ensures
            match tip_candidates(response@) {
                Ok(accounts) => exists|i: int|
                    0 <= i < accounts.len() && is_outcome_of(outcome, Some(#[trigger] accounts[i])),
                Err(e) => outcome == Err::<String, SdkError>(e),
            },
    {
        match tip_accounts(response) {
            Ok(found) => {
                let choice = choose_random(found);
                let outcome = account_from_choice(choice);
                proof {
                    let accounts = tip_candidates(response@)->Ok_0;
                    let item = choice->Some_0;
                    let i = choose|i: int| 0 <= i < found.len() && #[trigger] found[i] == *item;
                    assert(JsonValue::Array(*found)@->Array_0[i] == found[i]@);
                    assert(is_outcome_of(outcome, Some(accounts[i])));
                }
                outcome
            },
            Err(e) => Err(e),
        }
    }
}

/// Over a response whose `result` is a non-empty array of strings, every
/// pick succeeds with the text of the picked account, so each of the
/// accounts is a possible answer and nothing else is.
pub proof fn lemma_pick_among_strings(
    response: JsonModel,
    texts: Seq<Seq<char>>,
    i: int,
    outcome: Result<String, SdkError>,
)
    requires
        response.field("result"@) == Some(JsonModel::strings(texts)),
        0 <= i < texts.len(),
    ensures
        tip_candidates(response) == Ok::<Seq<JsonModel>, SdkError>(
            JsonModel::strings(texts)->Array_0,
        ),
        is_outcome_of(outcome, Some(tip_candidates(response)->Ok_0[i])) <==> (outcome matches Ok(s)
            && s@ == texts[i]),
{
}

/// Over a response whose `result` is an empty array, no account is picked:
/// the selection fails.
pub proof fn lemma_no_pick_from_empty(response: JsonModel)
    requires
        response.field("result"@) == Some(JsonModel::Array(Seq::empty())),
    ensures
        tip_candidates(response) == Err::<Seq<JsonModel>, SdkError>(SdkError::NoTipAccounts),
{
}

} // verus!
