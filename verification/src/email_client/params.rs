//! The parameters of a send request.

use vstd::prelude::*;
use vstd::string::StringExecFns;

verus! {

/// The parameters that the provider expects with every send request. All of
/// them are always present, empty or not.
#[derive(Debug)]
pub struct RequestParams {
    format: String,
    api_key: String,
    email: String,
    sender_name: String,
    sender_email: String,
    subject: String,
    body: String,
    list_id: String,
}

/// [`RequestParams`] as mathematical values.
pub struct RequestParamsView {
    pub format: Seq<char>,
    pub api_key: Seq<char>,
    pub email: Seq<char>,
    pub sender_name: Seq<char>,
    pub sender_email: Seq<char>,
    pub subject: Seq<char>,
    pub body: Seq<char>,
    pub list_id: Seq<char>,
}

impl View for RequestParams {
    type V = RequestParamsView;

    closed spec fn view(&self) -> RequestParamsView {
        RequestParamsView {
            format: self.format@,
            api_key: self.api_key@,
            email: self.email@,
            sender_name: self.sender_name@,
            sender_email: self.sender_email@,
            subject: self.subject@,
            body: self.body@,
            list_id: self.list_id@,
        }
    }
}

/// The parameters a builder starts from: the fixed ones and the key.
pub open spec fn initial_params(api_key: Seq<char>) -> RequestParamsView {
    RequestParamsView {
        format: "json"@,
        api_key,
        email: Seq::empty(),
        sender_name: "zero2prod"@,
        sender_email: Seq::empty(),
        subject: Seq::empty(),
        body: Seq::empty(),
        list_id: "1"@,
    }
}

/// The names of the parameters, in the order in which they are sent.
pub open spec fn parameter_names() -> Seq<Seq<char>> {
    seq![
        "format"@,
        "api_key"@,
        "list_id"@,
        "sender_name"@,
        "sender_email"@,
        "email"@,
        "subject"@,
        "body"@,
    ]
}

/// The parameters as the pairs of a query string, in the order in which
/// they are sent.
pub open spec fn query_pairs(p: RequestParamsView) -> Seq<(Seq<char>, Seq<char>)> {
    seq![
        ("format"@, p.format),
        ("api_key"@, p.api_key),
        ("list_id"@, p.list_id),
        ("sender_name"@, p.sender_name),
        ("sender_email"@, p.sender_email),
        ("email"@, p.email),
        ("subject"@, p.subject),
        ("body"@, p.body),
    ]
}

/// Every parameter is sent with every request, whatever it holds: a query
/// has the same names in the same order for all values, empty ones
/// included.
pub proof fn every_parameter_is_sent(p: RequestParamsView)
    ensures
        query_pairs(p).len() == parameter_names().len(),
        forall|i: int|
            0 <= i < parameter_names().len() ==> (#[trigger] query_pairs(p)[i]).0
                == parameter_names()[i],
{
}

/// Names and values as mathematical values.
pub open spec fn pairs_view(pairs: Seq<(String, String)>) -> Seq<(Seq<char>, Seq<char>)> {
    pairs.map_values(|pair: (String, String)| (pair.0@, pair.1@))
}

fn pair(name: &str, value: &String) -> (p: (String, String))
    ensures
        p.0@ == name@,
        p.1@ == value@,
{
    (String::from_str(name), value.clone())
}

impl RequestParams {
    /// Parameters with the fixed fields set and `api_key` as the key; the
    /// other fields are empty.
    pub fn builder(api_key: &str) -> (params: RequestParams)
        ensures
            params@ == initial_params(api_key@),
    {
        RequestParams {
            format: String::from_str("json"),
            api_key: api_key.to_owned(),
            email: String::new(),
            sender_name: String::from_str("zero2prod"),
            sender_email: String::new(),
            subject: String::new(),
            body: String::new(),
            list_id: String::from_str("1"),
        }
    }

    /// The same parameters with `sender_email` as the sender's address.
    pub fn sender_email(self, sender_email: &str) -> (params: RequestParams)
        ensures
            params@ == (RequestParamsView { sender_email: sender_email@, ..self@ }),
    {
        let mut params = self;
        params.sender_email = sender_email.to_owned();
        params
    }

    /// The same parameters with `email` as the recipient's address.
    pub fn email(self, email: &str) -> (params: RequestParams)
        ensures
            params@ == (RequestParamsView { email: email@, ..self@ }),
    {
        let mut params = self;
        params.email = email.to_owned();
        params
    }

    /// The same parameters with `subject` as the subject.
    pub fn subject(self, subject: &str) -> (params: RequestParams)
        ensures
            params@ == (RequestParamsView { subject: subject@, ..self@ }),
    {
        let mut params = self;
        params.subject = subject.to_owned();
        params
    }

    /// The same parameters with `body` as the message.
    pub fn body(self, body: &str) -> (params: RequestParams)
        ensures
            params@ == (RequestParamsView { body: body@, ..self@ }),
    {
        let mut params = self;
        params.body = body.to_owned();
        params
    }

    /// The format asked of the answer.
    pub fn format(&self) -> (format: &str)
        ensures
            format@ == self@.format,
    {
        self.format.as_str()
    }

    /// The key that the provider knows the sender by.
    pub fn api_key(&self) -> (api_key: &str)
        ensures
            api_key@ == self@.api_key,
    {
        self.api_key.as_str()
    }

    /// The recipient's address.
    pub fn recipient(&self) -> (email: &str)
        ensures
            email@ == self@.email,
    {
        self.email.as_str()
    }

    /// The name shown as the sender.
    pub fn sender_name(&self) -> (sender_name: &str)
        ensures
            sender_name@ == self@.sender_name,
    {
        self.sender_name.as_str()
    }

    /// The sender's address.
    pub fn sender(&self) -> (sender_email: &str)
        ensures
            sender_email@ == self@.sender_email,
    {
        self.sender_email.as_str()
    }

    /// The subject of the message.
    pub fn subject_line(&self) -> (subject: &str)
        ensures
            subject@ == self@.subject,
    {
        self.subject.as_str()
    }

    /// The message.
    pub fn message(&self) -> (body: &str)
        ensures
            body@ == self@.body,
    {
        self.body.as_str()
    }

    /// The list that the message belongs to.
    pub fn list_id(&self) -> (list_id: &str)
        ensures
            list_id@ == self@.list_id,
    {
        self.list_id.as_str()
    }

    /// The parameters as name and value pairs, ready to be written as a
    /// query string: every parameter once, in a fixed order.
    pub fn query(&self) -> (pairs: Vec<(String, String)>)
        ensures
            pairs_view(pairs@) == query_pairs(self@),
    {
        let mut pairs: Vec<(String, String)> = Vec::new();
        pairs.push(pair("format", &self.format));
        pairs.push(pair("api_key", &self.api_key));
        pairs.push(pair("list_id", &self.list_id));
        pairs.push(pair("sender_name", &self.sender_name));
        pairs.push(pair("sender_email", &self.sender_email));
        pairs.push(pair("email", &self.email));
        pairs.push(pair("subject", &self.subject));
        pairs.push(pair("body", &self.body));
        pairs
    }
}

} // verus!
