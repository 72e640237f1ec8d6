//! The failures that the library reports, each with its message.

use vstd::prelude::*;

verus! {

/// Why a retried call was given up, or why one attempt failed.
#[derive(Debug, Clone, Copy, PartialEq, Eq)]
pub enum FailureCause {
    /// The channel did not report ready, so no call was made.
    NotReady,
    /// The call was made and the remote side answered with an error.
    CallFailed,
}

/// A failure reported to the caller. None of them is retried by the caller
/// and none of them ends the process.
#[derive(Debug, Clone, PartialEq, Eq)]
pub enum SdkError {
    /// The bundle parameter is absent, not an array, or an empty array.
    InvalidBundleFormat,
    /// The first element of the bundle parameter is not an array.
    TransactionsNotArray,
    /// The bundle holds no transaction.
    EmptyBundle,
    /// The bundle holds more transactions than a bundle may carry.
    TooManyTransactions,
    /// The response has no `result` field, or the field is not an array.
    TipAccountsNotArray,
    /// The `result` array of the response is empty.
    NoTipAccounts,
    /// No element was picked from a list of tip accounts.
    NoAccountChosen,
    /// The picked tip account is not a string.
    TipAccountNotString,
    /// The binary-protocol path was used before an address was bound to it.
    GrpcNotEnabled,
    /// Every permitted attempt of a call failed.
    RetriesExhausted { attempts: u32, cause: FailureCause },
    /// The call succeeded but its payload could not be read.
    InvalidResponse,
}

/// The character of the decimal digit `d`.
pub open spec fn digit(d: nat) -> char {
    if d == 0 {
        '0'
    } else if d == 1 {
        '1'
    } else if d == 2 {
        '2'
    } else if d == 3 {
        '3'
    } else if d == 4 {
        '4'
    } else if d == 5 {
        '5'
    } else if d == 6 {
        '6'
    } else if d == 7 {
        '7'
    } else if d == 8 {
        '8'
    } else {
        '9'
    }
}

/// The decimal numeral of `n`, without leading zeros.
pub open spec fn decimal(n: nat) -> Seq<char>
    decreases n,
{
    if n < 10 {
        seq![digit(n)]
    } else {
        decimal(n / 10).push(digit(n % 10))
    }
}

fn digit_text(d: u32) -> (text: &'static str)
    requires
        d < 10,
    ensures
        text@ == seq![digit(d as nat)],
{
    proof {
        reveal_strlit("0");
        reveal_strlit("1");
        reveal_strlit("2");
        reveal_strlit("3");
        reveal_strlit("4");
        reveal_strlit("5");
        reveal_strlit("6");
        reveal_strlit("7");
        reveal_strlit("8");
        reveal_strlit("9");
    }
    let text = if d == 0 {
        "0"
    } else if d == 1 {
        "1"
    } else if d == 2 {
        "2"
    } else if d == 3 {
        "3"
    } else if d == 4 {
        "4"
    } else if d == 5 {
        "5"
    } else if d == 6 {
        "6"
    } else if d == 7 {
        "7"
    } else if d == 8 {
        "8"
    } else {
        "9"
    };
    assert(text@ =~= seq![digit(d as nat)]);
    text
}

/// The decimal numeral of `n`.
pub fn decimal_text(n: u32) -> (text: String)
    ensures
        text@ == decimal(n as nat),
    decreases n,
{
    if n < 10 {
        digit_text(n).to_owned()
    } else {
        let mut text = decimal_text(n / 10);
        let last = digit_text(n % 10);
        text.append(last);
        assert(text@ =~= decimal((n / 10) as nat).push(digit((n % 10) as nat)));
        text
    }
}

impl FailureCause {
    /// The cause in words.
    pub open spec fn text(self) -> Seq<char> {
        match self {
            FailureCause::NotReady => "channel not ready"@,
            FailureCause::CallFailed => "call failed"@,
        }
    }

    /// The cause in words.
    pub fn describe(&self) -> (text: &'static str)
        ensures
            text@ == self.text(),
    {
        match self {
            FailureCause::NotReady => "channel not ready",
            FailureCause::CallFailed => "call failed",
        }
    }
}

impl SdkError {
    /// The text of the failure. That of a call that was given up names the
    /// number of attempts and the cause of the last failure.
    pub open spec fn text(self) -> Seq<char> {
        match self {
            SdkError::InvalidBundleFormat => "Invalid bundle format: expected [serialized_txs, options]"@,
            SdkError::TransactionsNotArray => "First element must be an array of transactions"@,
            SdkError::EmptyBundle => "Bundle must contain at least one transaction"@,
            SdkError::TooManyTransactions => "Bundle can contain at most 5 transactions"@,
            SdkError::TipAccountsNotArray => "Failed to parse tip accounts as array"@,
            SdkError::NoTipAccounts => "No tip accounts available"@,
            SdkError::NoAccountChosen => "Failed to choose random tip account"@,
            SdkError::TipAccountNotString => "Failed to parse tip account as string"@,
            SdkError::GrpcNotEnabled => "gRPC not enabled. Call enable_grpc() first"@,
            SdkError::RetriesExhausted { attempts, cause } => "Giving up after "@ + decimal(
                attempts as nat,
            ) + " attempts: "@ + cause.text(),
            SdkError::InvalidResponse => "Failed to parse the response payload"@,
        }
    }

    /// The text of the failure.
    pub fn message(&self) -> (text: String)
        ensures
            text@ == self.text(),
    {
        match self {
            SdkError::InvalidBundleFormat => "Invalid bundle format: expected [serialized_txs, options]".to_owned(),
            SdkError::TransactionsNotArray => "First element must be an array of transactions".to_owned(),
            SdkError::EmptyBundle => "Bundle must contain at least one transaction".to_owned(),
            SdkError::TooManyTransactions => "Bundle can contain at most 5 transactions".to_owned(),
            SdkError::TipAccountsNotArray => "Failed to parse tip accounts as array".to_owned(),
            SdkError::NoTipAccounts => "No tip accounts available".to_owned(),
            SdkError::NoAccountChosen => "Failed to choose random tip account".to_owned(),
            SdkError::TipAccountNotString => "Failed to parse tip account as string".to_owned(),
            SdkError::GrpcNotEnabled => "gRPC not enabled. Call enable_grpc() first".to_owned(),
            SdkError::RetriesExhausted { attempts, cause } => {
                let mut text = "Giving up after ".to_owned();
                let numeral = decimal_text(*attempts);
                text.append(numeral.as_str());
                text.append(" attempts: ");
                text.append(cause.describe());
                text
            },
            SdkError::InvalidResponse => "Failed to parse the response payload".to_owned(),
        }
    }
}

} // verus!
