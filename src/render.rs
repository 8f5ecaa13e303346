//! Turning the outcome of a card operation into what the user sees. Failures
//! of authentication and of the certificate check are shown generically:
//! their cause is never shown.
use vstd::prelude::*;
use vstd::string::StringExecFns;

verus! {

/// A failed card operation, classified.
#[derive(Debug)]
pub enum Failure {
    /// Wrong or missing access code.
    Auth,
    /// Any other failure of the card or the transport, with its detail.
    Card(String),
}

/// What a card operation came back with, as text.
#[derive(Debug)]
pub enum Outcome {
    /// The card's status view.
    Status(String),
    /// The receiving address, or why there is none.
    Address(Result<String, Failure>),
    /// The name of the signer of the card's certificate, or the failed check.
    Certificate(Result<String, Failure>),
    /// The public key read.
    Read(Result<String, Failure>),
    /// The card's response to a slot operation (new slot, unseal).
    Response(Result<String, Failure>),
    /// The full result of a debug-level operation (derive, sign, init).
    Dump(Result<String, Failure>),
}

/// What is shown to the user, and what is kept for diagnosis only.
#[derive(Debug)]
pub struct Report {
    pub shown: String,
    pub diagnostic: Option<String>,
}

/// The message for a failed authentication.
pub open spec fn auth_failed_text() -> Seq<char> {
    "Authentication failed: wrong or missing CVC"@
}

/// The diagnostic detail of a failure.
pub open spec fn detail_of(f: Failure) -> Seq<char> {
    match f {
        Failure::Auth => "authentication failed"@,
        Failure::Card(d) => d@,
    }
}

/// The text shown for an outcome.
pub open spec fn shown_of(o: Outcome) -> Seq<char> {
    match o {
        Outcome::Status(s) => s@,
        Outcome::Address(Ok(a)) => "Address: "@ + a@,
        Outcome::Address(Err(_)) => "No address: no key derived in the current slot"@,
        Outcome::Certificate(Ok(n)) => "Genuine card from Coinkite.\nHas cert signed by: "@ + n@,
        Outcome::Certificate(Err(_)) => "Card failed to verify. Not a genuine card"@,
        Outcome::Read(Ok(k)) => k@,
        Outcome::Read(Err(_)) => "Failed to read with error: "@,
        Outcome::Response(Ok(t)) => t@,
        Outcome::Response(Err(Failure::Auth)) => auth_failed_text(),
        Outcome::Response(Err(Failure::Card(_))) => "Card operation failed"@,
        Outcome::Dump(Ok(t)) => t@,
        Outcome::Dump(Err(Failure::Auth)) => auth_failed_text(),
        Outcome::Dump(Err(Failure::Card(d))) => "Card error: "@ + d@,
    }
}

/// The detail kept for diagnosis: the cause of a failed read, address or
/// slot operation; never that of a failed certificate check or of a failed
/// authentication.
pub open spec fn diagnostic_of(o: Outcome) -> Option<Seq<char>> {
    match o {
        Outcome::Address(Err(f)) => Some(detail_of(f)),
        Outcome::Read(Err(f)) => Some(detail_of(f)),
        Outcome::Response(Err(Failure::Card(d))) => Some(d@),
        _ => None,
    }
}

fn describe(f: &Failure) -> (r: String)
    ensures
        r@ == detail_of(*f),
{
    match f {
        Failure::Auth => String::from_str("authentication failed"),
        Failure::Card(d) => d.clone(),
    }
}

fn auth_failed() -> (r: String)
    ensures
        r@ == auth_failed_text(),
{
    String::from_str("Authentication failed: wrong or missing CVC")
}

/// Renders the outcome of a card operation.
pub fn render(outcome: &Outcome) -> (r: Report)
    ensures
        r.shown@ == shown_of(*outcome),
        match r.diagnostic {
            Some(d) => diagnostic_of(*outcome) == Some(d@),
            None => diagnostic_of(*outcome) is None,
        },
{
    match outcome {
        Outcome::Status(s) => Report { shown: s.clone(), diagnostic: None },
        Outcome::Address(Ok(a)) => Report {
            shown: String::from_str("Address: ").concat(a.as_str()),
            diagnostic: None,
        },
        Outcome::Address(Err(f)) => Report {
            shown: String::from_str("No address: no key derived in the current slot"),
            diagnostic: Some(describe(f)),
        },
        Outcome::Certificate(Ok(n)) => Report {
            shown: String::from_str("Genuine card from Coinkite.\nHas cert signed by: ").concat(
                n.as_str(),
            ),
            diagnostic: None,
        },
        Outcome::Certificate(Err(_)) => Report {
            shown: String::from_str("Card failed to verify. Not a genuine card"),
            diagnostic: None,
        },
        Outcome::Read(Ok(k)) => Report { shown: k.clone(), diagnostic: None },
        Outcome::Read(Err(f)) => Report {
            shown: String::from_str("Failed to read with error: "),
            diagnostic: Some(describe(f)),
        },
        Outcome::Response(Ok(t)) => Report { shown: t.clone(), diagnostic: None },
        Outcome::Response(Err(Failure::Auth)) => Report { shown: auth_failed(), diagnostic: None },
        Outcome::Response(Err(Failure::Card(d))) => Report {
            shown: String::from_str("Card operation failed"),
            diagnostic: Some(d.clone()),
        },
        Outcome::Dump(Ok(t)) => Report { shown: t.clone(), diagnostic: None },
        Outcome::Dump(Err(Failure::Auth)) => Report { shown: auth_failed(), diagnostic: None },
        Outcome::Dump(Err(Failure::Card(d))) => Report {
            shown: String::from_str("Card error: ").concat(d.as_str()),
            diagnostic: None,
        },
    }
}

} // verus!
