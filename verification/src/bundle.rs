//! The rule that every bundle obeys: between one and five transactions.

use vstd::prelude::*;
use crate::error::SdkError;
use crate::json::{JsonModel, JsonValue};

verus! {

/// The largest number of transactions that one bundle carries.
pub const MAX_BUNDLE_TRANSACTIONS: usize = 5;

/// What the rule says of a bundle of `count` transactions.
pub open spec fn count_verdict(count: nat) -> Result<(), SdkError> {
    if count == 0 {
        Err(SdkError::EmptyBundle)
    } else if count > MAX_BUNDLE_TRANSACTIONS {
        Err(SdkError::TooManyTransactions)
    } else {
        Ok(())
    }
}

/// The transactions of a bundle parameter: the elements of the first element
/// of `params`, where `params` is a non-empty array whose first element is an
/// array. The error says which of the two shapes is missing.
pub open spec fn bundle_transactions(params: Option<JsonModel>) -> Result<Seq<JsonModel>, SdkError> {
    match params {
        Some(JsonModel::Array(outer)) => if outer.len() == 0 {
            Err(SdkError::InvalidBundleFormat)
        } else {
            match outer[0] {
                JsonModel::Array(transactions) => Ok(transactions),
                _ => Err(SdkError::TransactionsNotArray),
            }
        },
        _ => Err(SdkError::InvalidBundleFormat),
    }
}

/// What the validator says of a bundle parameter: the shape is judged first,
/// then the number of transactions.
pub open spec fn bundle_verdict(params: Option<JsonModel>) -> Result<(), SdkError> {
    match bundle_transactions(params) {
        Ok(transactions) => count_verdict(transactions.len()),
        Err(e) => Err(e),
    }
}

/// The model of a parameter that may be absent.
pub open spec fn optional_model(params: Option<JsonValue>) -> Option<JsonModel> {
    match params {
        Some(value) => Some(value@),
        None => None,
    }
}

/// Applies the rule to a number of transactions.
pub fn check_transaction_count(count: usize) -> (verdict: Result<(), SdkError>)
    ensures
        verdict == count_verdict(count as nat),
{
    if count == 0 {
        Err(SdkError::EmptyBundle)
    } else if count > MAX_BUNDLE_TRANSACTIONS {
        Err(SdkError::TooManyTransactions)
    } else {
        Ok(())
    }
}

/// Checks a bundle parameter: a non-empty array whose first element is an
/// array of one to five transactions. What follows the first element, and
/// what each transaction holds, is not looked at.
pub fn validate_bundle_params(params: &Option<JsonValue>) -> (verdict: Result<(), SdkError>)
    ensures
        verdict == bundle_verdict(optional_model(*params)),
{
    match params {
        Some(value) => match value.as_array() {
            Some(outer) => {
                if outer.len() == 0 {
                    return Err(SdkError::InvalidBundleFormat);
                }
                match outer[0].as_array() {
                    Some(transactions) => check_transaction_count(transactions.len()),
                    None => Err(SdkError::TransactionsNotArray),
                }
            },
            None => Err(SdkError::InvalidBundleFormat),
        },
        None => Err(SdkError::InvalidBundleFormat),
    }
}

/// A bundle parameter is accepted exactly when it has the shape and holds
/// between one and five transactions; each way of failing has an error of
/// its own.
pub proof fn lemma_verdict_cases(params: Option<JsonModel>)
    ensures
        bundle_verdict(params) is Ok <==> (bundle_transactions(params) matches Ok(transactions)
            && 1 <= transactions.len() <= 5),
        bundle_verdict(params) == Err::<(), SdkError>(SdkError::EmptyBundle) <==> (
        bundle_transactions(params) matches Ok(transactions) && transactions.len() == 0),
        bundle_verdict(params) == Err::<(), SdkError>(SdkError::TooManyTransactions) <==> (
        bundle_transactions(params) matches Ok(transactions) && transactions.len() > 5),
        bundle_verdict(params) == Err::<(), SdkError>(SdkError::TransactionsNotArray) <==> (
        params matches Some(JsonModel::Array(outer)) && outer.len() > 0 && !(outer[0] is Array)),
        bundle_verdict(params) == Err::<(), SdkError>(SdkError::InvalidBundleFormat) <==> !(
        params matches Some(JsonModel::Array(outer)) && outer.len() > 0),
{
}

} // verus!
