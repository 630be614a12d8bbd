//! The client side of the email provider's protocol: which request sends a
//! message, and what the provider's answer means. The request itself is
//! carried out by the caller, once for each send.

pub mod params;
pub mod response;

use crate::domain::subscriber_email::is_valid_email;
use crate::domain::subscriber_email::SubscriberEmail;
use crate::json::JsonValue;
use crate::text::decimal;
use crate::text::decimal_text;
use params::initial_params;
use params::RequestParams;
use params::RequestParamsView;
use response::decode_response;
use response::EmailSendResponse;
use response::EmailSendResponseView;
use std::time::Duration;
use vstd::prelude::*;
use vstd::string::StringExecFns;

verus! {

/// Why a client could not be set up.
#[derive(Debug)]
pub struct ConfigError {
    pub cause: String,
}

/// Why a send failed.
#[derive(Debug)]
pub enum EmailError {
    /// The request did not get through, timed out, or was answered with a
    /// status outside the 2xx range.
    TransportFailure { cause: String },
    /// The answer came with a 2xx status and a body that does not describe a
    /// delivery.
    MalformedResponse { cause: String },
}

/// [`EmailError`] as mathematical values.
pub enum EmailErrorView {
    TransportFailure { cause: Seq<char> },
    MalformedResponse { cause: Seq<char> },
}

impl View for EmailError {
    type V = EmailErrorView;

    open spec fn view(&self) -> EmailErrorView {
        match self {
            EmailError::TransportFailure { cause } => EmailErrorView::TransportFailure {
                cause: cause@,
            },
            EmailError::MalformedResponse { cause } => EmailErrorView::MalformedResponse {
                cause: cause@,
            },
        }
    }
}

/// The body of an answer: the JSON document it holds, or why it holds none.
#[derive(Debug)]
pub enum ResponseBody {
    Json(JsonValue),
    Unparseable { cause: String },
}

/// What came of carrying out a request: no answer, or an answer with its
/// status and body.
#[derive(Debug)]
pub enum TransportReply {
    Failed { cause: String },
    Response { status: u16, body: ResponseBody },
}

/// The request that sends one message: a GET of `url` with `params` as the
/// query string, to be given up after `timeout`.
#[derive(Debug)]
pub struct EmailRequest {
    url: String,
    params: RequestParams,
    timeout: Duration,
}

/// [`EmailRequest`] as mathematical values.
pub struct EmailRequestView {
    pub url: Seq<char>,
    pub params: RequestParamsView,
    pub timeout: Duration,
}

impl View for EmailRequest {
    type V = EmailRequestView;

    closed spec fn view(&self) -> EmailRequestView {
        EmailRequestView { url: self.url@, params: self.params@, timeout: self.timeout }
    }
}

/// The settings of the connection to the provider. They are fixed when the
/// client is made.
#[derive(Debug)]
pub struct EmailClient {
    base_url: String,
    sender: SubscriberEmail,
    api_key: String,
    timeout: Duration,
}

/// [`EmailClient`] as mathematical values.
pub struct EmailClientView {
    pub base_url: Seq<char>,
    pub sender: Seq<char>,
    pub api_key: Seq<char>,
    pub timeout: Duration,
}

impl View for EmailClient {
    type V = EmailClientView;

    closed spec fn view(&self) -> EmailClientView {
        EmailClientView {
            base_url: self.base_url@,
            sender: self.sender@,
            api_key: self.api_key@,
            timeout: self.timeout,
        }
    }
}

/// Whether `status` is in the 2xx range.
pub open spec fn is_success(status: u16) -> bool {
    200 <= status <= 299
}

/// The cause reported for an answer with the status `status`.
pub open spec fn status_cause(status: u16) -> Seq<char> {
    "HTTP status "@ + decimal(status as nat)
}

/// The cause reported for a JSON body that does not describe a delivery.
pub open spec fn shape_cause() -> Seq<char> {
    "the response body does not describe a delivery"@
}

/// The request by which `client` sends `subject` and `body` to `recipient`.
pub open spec fn send_request(
    client: EmailClientView,
    recipient: Seq<char>,
    subject: Seq<char>,
    body: Seq<char>,
) -> EmailRequestView {
    EmailRequestView {
        url: client.base_url + "/ru/api/sendEmail"@,
        params: RequestParamsView {
            sender_email: client.sender,
            email: recipient,
            subject,
            body,
            ..initial_params(client.api_key)
        },
        timeout: client.timeout,
    }
}

/// What `reply` means for the send it answers.
pub open spec fn reply_outcome(reply: TransportReply) -> Result<
    EmailSendResponseView,
    EmailErrorView,
> {
    match reply {
        TransportReply::Failed { cause } => Err(EmailErrorView::TransportFailure { cause: cause@ }),
        TransportReply::Response { status, body } => if !is_success(status) {
            Err(EmailErrorView::TransportFailure { cause: status_cause(status) })
        } else {
            match body {
                ResponseBody::Unparseable { cause } => Err(
                    EmailErrorView::MalformedResponse { cause: cause@ },
                ),
                ResponseBody::Json(json) => match decode_response(json) {
                    Some(response) => Ok(response),
                    None => Err(EmailErrorView::MalformedResponse { cause: shape_cause() }),
                },
            }
        },
    }
}

impl EmailError {
    /// The cause of the failure, as text.
    pub fn cause(&self) -> (cause: &str)
        ensures
            self@ == (EmailErrorView::TransportFailure { cause: cause@ }) || self@ == (
                EmailErrorView::MalformedResponse { cause: cause@ }
            ),
    {
        match self {
            EmailError::TransportFailure { cause } => cause.as_str(),
            EmailError::MalformedResponse { cause } => cause.as_str(),
        }
    }
}

/// An answer with a status outside the 2xx range is a transport failure,
/// whatever its body holds.
pub proof fn bad_status_is_a_transport_failure(status: u16, body: ResponseBody)
    requires
        !is_success(status),
    ensures
        reply_outcome(TransportReply::Response { status, body }) == Err::<
            EmailSendResponseView,
            EmailErrorView,
        >(EmailErrorView::TransportFailure { cause: status_cause(status) }),
{
}

/// An answer with a 2xx status is a success exactly when its body is a JSON
/// document that describes a delivery; the issues that the document lists,
/// however many, do not change that.
pub proof fn good_status_succeeds_on_a_delivery(status: u16, body: ResponseBody)
    requires
        is_success(status),
    ensures
        reply_outcome(TransportReply::Response { status, body }) is Ok <==> (body matches ResponseBody::Json(
            json,
        ) && decode_response(json) is Some),
        reply_outcome(TransportReply::Response { status, body }) matches Err(e)
            ==> e is MalformedResponse,
{
}

impl EmailRequest {
    /// The address to GET.
    pub fn url(&self) -> (url: &str)
        ensures
            url@ == self@.url,
    {
        self.url.as_str()
    }

    /// The parameters of the query string.
    pub fn params(&self) -> (params: &RequestParams)
        ensures
            params@ == self@.params,
    {
        &self.params
    }

    /// How long to wait for the answer.
    pub fn timeout(&self) -> (timeout: Duration)
        ensures
            timeout == self@.timeout,
    {
        self.timeout
    }
}

impl EmailClient {
    /// A client with the given settings. `transport` says what came of
    /// setting up, with `timeout`, the network client that will carry out
    /// the requests: the client is made if and only if that worked.
    pub fn new(
        base_url: &str,
        sender: SubscriberEmail,
        api_key: &str,
        timeout: Duration,
        transport: Result<(), String>,
    ) -> (r: Result<EmailClient, ConfigError>)
        ensures
            match r {
                Ok(client) => transport is Ok && client@ == (EmailClientView {
                    base_url: base_url@,
                    sender: sender@,
                    api_key: api_key@,
                    timeout,
                }),
                Err(e) => transport matches Err(cause) && e.cause@ == cause@,
            },
    {
        match transport {
            Ok(_) => Ok(
                EmailClient {
                    base_url: base_url.to_owned(),
                    sender,
                    api_key: api_key.to_owned(),
                    timeout,
                },
            ),
            Err(cause) => Err(ConfigError { cause }),
        }
    }

    /// The address of the provider's API.
    pub fn base_url(&self) -> (base_url: &str)
        ensures
            base_url@ == self@.base_url,
    {
        self.base_url.as_str()
    }

    /// The address that messages are sent from. It is a valid address.
    pub fn sender(&self) -> (sender: &SubscriberEmail)
        ensures
            sender@ == self@.sender,
    {
        &self.sender
    }

    /// The key that the provider knows the sender by.
    pub fn api_key(&self) -> (api_key: &str)
        ensures
            api_key@ == self@.api_key,
    {
        self.api_key.as_str()
    }

    /// How long a request may take.
    pub fn timeout(&self) -> (timeout: Duration)
        ensures
            timeout == self@.timeout,
    {
        self.timeout
    }

    /// The one request that sends `subject` and `body` to `recipient`. The
    /// caller carries it out once and hands the reply to
    /// [`EmailClient::read_reply`].
    pub fn send_email(&self, recipient: SubscriberEmail, subject: &str, body: &str) -> (request:
        EmailRequest)
        ensures
            request@ == send_request(self@, recipient@, subject@, body@),
            is_valid_email(request@.params.email),
            is_valid_email(request@.params.sender_email),
    {
        let mut url = self.base_url.clone();
        url.append("/ru/api/sendEmail");
        let params = RequestParams::builder(self.api_key.as_str()).sender_email(
            self.sender.as_ref(),
        ).email(recipient.as_ref()).subject(subject).body(body);
        EmailRequest { url, params, timeout: self.timeout }
    }

    /// What the reply to a send request means: the provider's record of the
    /// message if the request was answered with a 2xx status and a body that
    /// describes a delivery, and the failure otherwise. Issues listed in the
    /// record do not make the send fail.
    pub fn read_reply(reply: TransportReply) -> (r: Result<EmailSendResponse, EmailError>)
        ensures
            match r {
                Ok(response) => reply_outcome(reply) == Ok::<
                    EmailSendResponseView,
                    EmailErrorView,
                >(response@),
                Err(e) => reply_outcome(reply) == Err::<EmailSendResponseView, EmailErrorView>(e@),
            },
    {
        match reply {
            TransportReply::Failed { cause } => Err(EmailError::TransportFailure { cause }),
            TransportReply::Response { status, body } => {
                if status < 200 || status > 299 {
                    let mut cause = String::from_str("HTTP status ");
                    cause.append(decimal_text(status).as_str());
                    Err(EmailError::TransportFailure { cause })
                } else {
                    match body {
                        ResponseBody::Unparseable { cause } => Err(
                            EmailError::MalformedResponse { cause },
                        ),
                        ResponseBody::Json(json) => match EmailSendResponse::from_json(&json) {
                            Some(response) => Ok(response),
                            None => Err(
                                EmailError::MalformedResponse {
                                    cause: String::from_str(
                                        "the response body does not describe a delivery",
                                    ),
                                },
                            ),
                        },
                    }
                }
            },
        }
    }
}

} // verus!
