//! What the provider answers to a send request.

use crate::json::json_member;
use crate::json::JsonValue;
use vstd::prelude::*;

verus! {

/// An issue that the provider reports with a message it has taken.
#[derive(Debug)]
pub struct EmailSendError {
    pub code: String,
    pub message: String,
}

/// The provider's record of a message it has taken.
#[derive(Debug)]
pub struct EmailSendResult {
    pub index: Option<i64>,
    pub email_id: String,
    pub errors: Option<Vec<EmailSendError>>,
}

/// The body of a successful answer.
#[derive(Debug)]
pub struct EmailSendResponse {
    pub result: EmailSendResult,
}

/// [`EmailSendError`] as mathematical values.
pub struct EmailSendErrorView {
    pub code: Seq<char>,
    pub message: Seq<char>,
}

/// [`EmailSendResult`] as mathematical values.
pub struct EmailSendResultView {
    pub index: Option<i64>,
    pub email_id: Seq<char>,
    pub errors: Option<Seq<EmailSendErrorView>>,
}

/// [`EmailSendResponse`] as mathematical values.
pub struct EmailSendResponseView {
    pub result: EmailSendResultView,
}

impl View for EmailSendError {
    type V = EmailSendErrorView;

    open spec fn view(&self) -> EmailSendErrorView {
        EmailSendErrorView { code: self.code@, message: self.message@ }
    }
}

impl View for EmailSendResult {
    type V = EmailSendResultView;

    open spec fn view(&self) -> EmailSendResultView {
        EmailSendResultView {
            index: self.index,
            email_id: self.email_id@,
            errors: match self.errors {
                Some(errors) => Some(errors@.map_values(|e: EmailSendError| e@)),
                None => None,
            },
        }
    }
}

impl View for EmailSendResponse {
    type V = EmailSendResponseView;

    open spec fn view(&self) -> EmailSendResponseView {
        EmailSendResponseView { result: self.result@ }
    }
}

/// The issue that `v` describes: an object with the strings `code` and
/// `message`.
pub open spec fn decode_issue(v: JsonValue) -> Option<EmailSendErrorView> {
    match (json_member(v, "code"@), json_member(v, "message"@)) {
        (Some(JsonValue::String(code)), Some(JsonValue::String(message))) => Some(
            EmailSendErrorView { code: code@, message: message@ },
        ),
        _ => None,
    }
}

/// The issues that `items` describe, if each of them describes one.
pub open spec fn decode_issues(items: Seq<JsonValue>) -> Option<Seq<EmailSendErrorView>> {
    if forall|i: int| 0 <= i < items.len() ==> (#[trigger] decode_issue(items[i])) is Some {
        Some(Seq::new(items.len(), |i: int| decode_issue(items[i]).unwrap()))
    } else {
        None
    }
}

/// The optional member `index`: absent, `null`, or a whole number.
pub open spec fn decode_index(member: Option<JsonValue>) -> Option<Option<i64>> {
    match member {
        None => Some(None),
        Some(JsonValue::Null) => Some(None),
        Some(JsonValue::Integer(i)) => Some(Some(i)),
        _ => None,
    }
}

/// The optional member `errors`: absent, `null`, or an array of issues.
pub open spec fn decode_errors(member: Option<JsonValue>) -> Option<
    Option<Seq<EmailSendErrorView>>,
> {
    match member {
        None => Some(None),
        Some(JsonValue::Null) => Some(None),
        Some(JsonValue::Array(items)) => match decode_issues(items@) {
            Some(issues) => Some(Some(issues)),
            None => None,
        },
        _ => None,
    }
}

/// The record that `v` describes: an object with the string `email_id` and
/// the optional members `index` and `errors`.
pub open spec fn decode_result(v: JsonValue) -> Option<EmailSendResultView> {
    match (
        json_member(v, "email_id"@),
        decode_index(json_member(v, "index"@)),
        decode_errors(json_member(v, "errors"@)),
    ) {
        (Some(JsonValue::String(email_id)), Some(index), Some(errors)) => Some(
            EmailSendResultView { index, email_id: email_id@, errors },
        ),
        _ => None,
    }
}

/// The answer that `v` describes: an object whose member `result` describes
/// a record. Members with other names are passed over.
pub open spec fn decode_response(v: JsonValue) -> Option<EmailSendResponseView> {
    match json_member(v, "result"@) {
        Some(result) => match decode_result(result) {
            Some(result) => Some(EmailSendResponseView { result }),
            None => None,
        },
        None => None,
    }
}

impl EmailSendError {
    /// Reads an issue from `json`, if `json` describes one.
    pub fn from_json(json: &JsonValue) -> (r: Option<EmailSendError>)
        ensures
            match r {
                Some(issue) => decode_issue(*json) == Some(issue@),
                None => decode_issue(*json) is None,
            },
    {
        match (json.member("code"), json.member("message")) {
            (Some(JsonValue::String(code)), Some(JsonValue::String(message))) => Some(
                EmailSendError { code: code.clone(), message: message.clone() },
            ),
            _ => None,
        }
    }
}

/// Reads the issues in `items`, if each item describes one.
fn issues_from_json(items: &Vec<JsonValue>) -> (r: Option<Vec<EmailSendError>>)
    ensures
        match r {
            Some(issues) => decode_issues(items@) == Some(
                issues@.map_values(|e: EmailSendError| e@),
            ),
            None => decode_issues(items@) is None,
        },
{
    let mut issues: Vec<EmailSendError> = Vec::new();
    let mut i: usize = 0;
    while i < items.len()
        invariant
            i <= items.len(),
            issues.len() == i,
            forall|j: int| 0 <= j < i ==> decode_issue(items@[j]) == Some(#[trigger] issues@[j]@),
        decreases items.len() - i,
    {
        match EmailSendError::from_json(&items[i]) {
            Some(issue) => issues.push(issue),
            None => {
                return None;
            },
        }
        i += 1;
    }
    proof {
        assert forall|j: int| 0 <= j < items.len() implies (#[trigger] decode_issue(
            items@[j],
        )) is Some by {
            assert(decode_issue(items@[j]) == Some(issues@[j]@));
        }
    }
    Some(issues)
}

impl EmailSendResult {
    /// Reads a record from `json`, if `json` describes one.
    pub fn from_json(json: &JsonValue) -> (r: Option<EmailSendResult>)
        ensures
            match r {
                Some(result) => decode_result(*json) == Some(result@),
                None => decode_result(*json) is None,
            },
    {
        let email_id = match json.member("email_id") {
            Some(JsonValue::String(id)) => id.clone(),
            _ => {
                return None;
            },
        };
        let index = match json.member("index") {
            None => None,
            Some(JsonValue::Null) => None,
            Some(JsonValue::Integer(i)) => Some(*i),
            _ => {
                return None;
            },
        };
        let errors = match json.member("errors") {
            None => None,
            Some(JsonValue::Null) => None,
            Some(JsonValue::Array(items)) => match issues_from_json(items) {
                Some(issues) => Some(issues),
                None => {
                    return None;
                },
            },
            _ => {
                return None;
            },
        };
        Some(EmailSendResult { index, email_id, errors })
    }
}

impl EmailSendResponse {
    /// Reads an answer from `json`, if `json` describes one.
    pub fn from_json(json: &JsonValue) -> (r: Option<EmailSendResponse>)
        ensures
            match r {
                Some(response) => decode_response(*json) == Some(response@),
                None => decode_response(*json) is None,
            },
    {
        match json.member("result") {
            Some(result) => match EmailSendResult::from_json(result) {
                Some(result) => Some(EmailSendResponse { result }),
                None => None,
            },
            None => None,
        }
    }
}

} // verus!
