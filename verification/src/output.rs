//! The single JSON object every command prints:
//! `{ ok, user_message, data, error, _internal }`. Values are built here;
//! the application serialises and prints them.

use vstd::prelude::*;

use crate::cmd::keys::KeyListing;
use crate::cmd::register::SavedRegistration;

verus! {

/// A JSON document carried through unchanged (serde_json's `Value`).
#[verifier::external_type_specification]
#[verifier::external_body]
pub struct ExJsonValue(serde_json::Value);

/// Hints for the driving LLM: what to do next.
#[derive(Debug)]
pub struct Internal {
    /// What the LLM should do next, e.g. "done", "fix_command", "retry".
    pub next_action: Option<String>,
    /// A concrete next command for the LLM to emit.
    pub next_command: Option<String>,
    /// Free-form extra hint.
    pub hint: Option<String>,
}

impl Default for Internal {
    fn default() -> (res: Internal)
        ensures
            res.next_action is None,
            res.next_command is None,
            res.hint is None,
    {
        Internal { next_action: None, next_command: None, hint: None }
    }
}

pub open spec fn opt_seq(o: Option<String>) -> Option<Seq<char>> {
    match o {
        Some(s) => Some(s@),
        None => None,
    }
}

/// The three hints as text: next action, next command, free-form hint.
pub open spec fn hints(i: Internal) -> (Option<Seq<char>>, Option<Seq<char>>, Option<Seq<char>>) {
    (opt_seq(i.next_action), opt_seq(i.next_command), opt_seq(i.hint))
}

impl Internal {
    /// Only a next action.
    pub fn action(next_action: &str) -> (res: Internal)
        ensures
            opt_seq(res.next_action) == Some(next_action@),
            res.next_command is None,
            res.hint is None,
    {
        Internal { next_action: Some(next_action.to_owned()), next_command: None, hint: None }
    }

    /// A next action and a hint.
    pub fn action_hint(next_action: &str, hint: &str) -> (res: Internal)
        ensures
            opt_seq(res.next_action) == Some(next_action@),
            res.next_command is None,
            opt_seq(res.hint) == Some(hint@),
    {
        Internal {
            next_action: Some(next_action.to_owned()),
            next_command: None,
            hint: Some(hint.to_owned()),
        }
    }

    /// The same hints with another next action.
    pub fn with_action(self, next_action: &str) -> (res: Internal)
        ensures
            opt_seq(res.next_action) == Some(next_action@),
            res.next_command == self.next_command,
            res.hint == self.hint,
    {
        Internal { next_action: Some(next_action.to_owned()), ..self }
    }
}

/// The error part of a failed command's output.
#[derive(Debug)]
pub struct ErrorBody {
    pub code: String,
    pub domain: String,
    pub retryable: bool,
    pub hint: Option<String>,
    /// Extra diagnostic data; `None` is printed as nothing.
    pub debug: Option<serde_json::Value>,
}

/// The data part of a command's output.
#[derive(Debug)]
pub enum Payload {
    /// A JSON document passed through as it is.
    Json(serde_json::Value),
    /// A fresh registration, with the api key only as its masked preview.
    Saved(SavedRegistration),
    /// The keyring listing, with masked key previews.
    Keys(KeyListing),
}

/// What one command prints. `data: None` is printed as nothing.
#[derive(Debug)]
pub struct Output {
    pub ok: bool,
    pub user_message: String,
    pub data: Option<Payload>,
    pub error: Option<ErrorBody>,
    pub internal: Internal,
}

/// `out` reports success: message `msg`, the JSON document `data`, no
/// error body.
pub open spec fn succeeded(out: Output, msg: Seq<char>, data: serde_json::Value) -> bool {
    succeeded_with(out, msg, Payload::Json(data))
}

/// `out` reports success: message `msg`, data `data`, no error body.
pub open spec fn succeeded_with(out: Output, msg: Seq<char>, data: Payload) -> bool {
    &&& out.ok
    &&& out.user_message@ == msg
    &&& out.data == Some(data)
    &&& out.error is None
}

/// `out` reports failure: message `msg`, no data, and an error body with
/// this code, domain, retryability, hint and debug data.
pub open spec fn failed(
    out: Output,
    msg: Seq<char>,
    code: Seq<char>,
    domain: Seq<char>,
    retryable: bool,
    hint: Seq<char>,
    debug: Option<serde_json::Value>,
) -> bool {
    &&& !out.ok
    &&& out.user_message@ == msg
    &&& out.data is None
    &&& out.error matches Some(e) && e.code@ == code && e.domain@ == domain && e.retryable
        == retryable && opt_seq(e.hint) == Some(hint) && e.debug == debug
}

impl Output {
    /// A successful result with a JSON document as its data.
    pub fn ok(user_message: String, data: serde_json::Value, internal: Internal) -> (res: Output)
        ensures
            res.ok,
            res.user_message == user_message,
            res.data == Some(Payload::Json(data)),
            res.error is None,
            res.internal == internal,
    {
        Output::ok_with(user_message, Payload::Json(data), internal)
    }

    /// A successful result with its data.
    pub fn ok_with(user_message: String, data: Payload, internal: Internal) -> (res: Output)
        ensures
            res.ok,
            res.user_message == user_message,
            res.data == Some(data),
            res.error is None,
            res.internal == internal,
    {
        Output { ok: true, user_message, data: Some(data), error: None, internal }
    }

    /// A failure: no data, and an error body with the given code, domain,
    /// retryability and hint.
    pub fn error(
        user_message: String,
        code: &str,
        domain: &str,
        retryable: bool,
        hint: &str,
        internal: Internal,
    ) -> (res: Output)
        ensures
            !res.ok,
            res.user_message == user_message,
            res.data is None,
            res.error matches Some(e) && e.code@ == code@ && e.domain@ == domain@ && e.retryable
                == retryable && opt_seq(e.hint) == Some(hint@) && e.debug is None,
            res.internal == internal,
    {
        Output {
            ok: false,
            user_message,
            data: None,
            error: Some(
                ErrorBody {
                    code: code.to_owned(),
                    domain: domain.to_owned(),
                    retryable,
                    hint: Some(hint.to_owned()),
                    debug: None,
                },
            ),
            internal,
        }
    }

    /// A failure that also carries debug data in its error body.
    pub fn error_with_debug(
        user_message: String,
        code: &str,
        domain: &str,
        retryable: bool,
        hint: &str,
        debug: serde_json::Value,
        internal: Internal,
    ) -> (res: Output)
        ensures
            !res.ok,
            res.user_message == user_message,
            res.data is None,
            res.error matches Some(e) && e.code@ == code@ && e.domain@ == domain@ && e.retryable
                == retryable && opt_seq(e.hint) == Some(hint@) && e.debug == Some(debug),
            res.internal == internal,
    {
        let mut out = Self::error(user_message, code, domain, retryable, hint, internal);
        if let Some(e) = out.error.as_mut() {
            e.debug = Some(debug);
        }
        out
    }
}

} // verus!
