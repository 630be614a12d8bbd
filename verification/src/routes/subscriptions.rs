//! A request to subscribe, from the submitted form to the answer.
//!
//! A request passes the stages `Received`, `Validated`, `Persisted`,
//! `Notified` and `Accepted`, and leaves this path at the first stage that
//! fails. [`subscribe`] takes what has happened and says what to do next;
//! storing the subscriber and sending the email are left to the caller.

use crate::domain::error::ValidationError;
use crate::domain::error::ValidationErrorView;
use crate::domain::new_subscriber::NewSubscriber;
use crate::domain::subscriber_email::is_valid_email;
use crate::domain::subscriber_email::SubscriberEmail;
use crate::domain::subscriber_name::is_valid_name;
use crate::domain::subscriber_name::name_violation;
use crate::domain::subscriber_name::SubscriberName;
use crate::email_client::reply_outcome;
use crate::email_client::response::EmailSendResponse;
use crate::email_client::response::EmailSendResponseView;
use crate::email_client::send_request;
use crate::email_client::EmailClient;
use crate::email_client::EmailClientView;
use crate::email_client::EmailError;
use crate::email_client::EmailErrorView;
use crate::email_client::EmailRequest;
use crate::email_client::EmailRequestView;
use crate::email_client::TransportReply;
use vstd::prelude::*;
use vstd::string::StringExecFns;

verus! {

/// The fields of the subscription form, as submitted.
#[derive(Debug)]
pub struct FormData {
    pub email: String,
    pub name: String,
}

/// The error that the form fields `name` and `email` are turned down with:
/// that of the name if the name is not valid, else that of the address if
/// the address is not valid.
pub open spec fn form_error(name: Seq<char>, email: Seq<char>) -> Option<ValidationErrorView> {
    match name_violation(name) {
        Some(rule) => Some(ValidationErrorView::InvalidName { input: name, rule }),
        None => if is_valid_email(email) {
            None
        } else {
            Some(ValidationErrorView::InvalidEmail)
        },
    }
}

impl NewSubscriber {
    /// The subscriber that `form` describes, if both of its fields are
    /// valid. The name is looked at first.
    pub fn try_from(form: FormData) -> (r: Result<NewSubscriber, ValidationError>)
        ensures
            match r {
                Ok(subscriber) => form_error(form.name@, form.email@) is None && subscriber.name@
                    == form.name@ && subscriber.email@ == form.email@,
                Err(e) => form_error(form.name@, form.email@) == Some(e@),
            },
    {
        let name = match SubscriberName::parse(form.name.as_str()) {
            Ok(name) => name,
            Err(e) => {
                return Err(e);
            },
        };
        let email = match SubscriberEmail::parse(form.email) {
            Ok(email) => email,
            Err(e) => {
                return Err(e);
            },
        };
        Ok(NewSubscriber { email, name })
    }
}

/// What the submitter is told.
#[derive(Clone, Copy, Debug, PartialEq, Eq, Structural)]
pub enum Outcome {
    Accepted,
    BadRequest,
    InternalError,
}

/// The stages of a request.
#[derive(Clone, Copy, Debug, PartialEq, Eq, Structural)]
pub enum Stage {
    /// Nothing has been looked at yet.
    Received,
    /// The form is valid; the subscriber is being stored.
    Validated,
    /// The subscriber is stored; the confirmation email is being sent.
    Persisted,
    /// The provider has taken the email. A request does not rest here: it
    /// goes on to `Accepted` without waiting for anything.
    Notified,
    /// Every stage has succeeded.
    Accepted,
    /// The form is not valid.
    ValidationFailed,
    /// The subscriber could not be stored.
    PersistenceFailed,
    /// The confirmation email could not be sent.
    NotificationFailed,
}

/// Why the store did not take a subscriber. The cause is kept for the log
/// and plays no part in what follows.
#[derive(Debug)]
pub struct PersistenceError {
    pub cause: String,
}

/// What has happened since the last step.
#[derive(Debug)]
pub enum Event {
    /// The form has come in.
    Submitted(FormData),
    /// The store has answered.
    Stored(Result<(), PersistenceError>),
    /// The request to the email provider has been carried out.
    Replied(TransportReply),
}

/// What the caller has to do next.
#[derive(Debug)]
pub enum Action {
    /// Store `subscriber` once, with `status` as its status and a fresh
    /// identifier, and report back with [`Event::Stored`].
    Persist { subscriber: NewSubscriber, status: String },
    /// Carry out the request once and report back with [`Event::Replied`].
    Send(EmailRequest),
    /// Answer the submitter. The request is over.
    Respond(Outcome),
}

/// [`Action`] as mathematical values.
pub enum ActionView {
    Persist { email: Seq<char>, name: Seq<char>, status: Seq<char> },
    Send(EmailRequestView),
    Respond(Outcome),
}

impl View for Action {
    type V = ActionView;

    open spec fn view(&self) -> ActionView {
        match self {
            Action::Persist { subscriber, status } => ActionView::Persist {
                email: subscriber.email@,
                name: subscriber.name@,
                status: status@,
            },
            Action::Send(request) => ActionView::Send(request@),
            Action::Respond(outcome) => ActionView::Respond(*outcome),
        }
    }
}

/// [`Action`], if there is one, as mathematical values.
pub open spec fn action_view(action: Option<Action>) -> Option<ActionView> {
    match action {
        Some(action) => Some(action@),
        None => None,
    }
}

#[derive(Debug)]
enum State {
    Received,
    Validated { recipient: SubscriberEmail },
    Persisted,
    Accepted { record: EmailSendResponse },
    ValidationFailed { error: ValidationError },
    PersistenceFailed { fault: PersistenceError },
    NotificationFailed { failure: EmailError },
}

/// One request to subscribe and how far it has come.
#[derive(Debug)]
pub struct Subscription {
    state: State,
}

/// [`Subscription`] as mathematical values: the stage at which the request
/// rests, and what is known at that stage.
pub enum SubscriptionView {
    Received,
    Validated { recipient: Seq<char> },
    Persisted,
    Accepted { record: EmailSendResponseView },
    ValidationFailed { error: ValidationErrorView },
    PersistenceFailed { cause: Seq<char> },
    NotificationFailed { failure: EmailErrorView },
}

impl View for Subscription {
    type V = SubscriptionView;

    closed spec fn view(&self) -> SubscriptionView {
        match self.state {
            State::Received => SubscriptionView::Received,
            State::Validated { recipient } => SubscriptionView::Validated { recipient: recipient@ },
            State::Persisted => SubscriptionView::Persisted,
            State::Accepted { record } => SubscriptionView::Accepted { record: record@ },
            State::ValidationFailed { error } => SubscriptionView::ValidationFailed {
                error: error@,
            },
            State::PersistenceFailed { fault } => SubscriptionView::PersistenceFailed {
                cause: fault.cause@,
            },
            State::NotificationFailed { failure } => SubscriptionView::NotificationFailed {
                failure: failure@,
            },
        }
    }
}

/// The status that a new subscriber is stored with.
pub open spec fn stored_status() -> Seq<char> {
    "confirmed"@
}

/// The subject of the confirmation email.
pub open spec fn welcome_subject() -> Seq<char> {
    "Welcome"@
}

/// The body of the confirmation email.
pub open spec fn welcome_body() -> Seq<char> {
    "Click <a href=\""@ + "https://my-api.com/subscriptions/confirm"@
        + "\">here</a> to confirm your subscription."@
}

/// The stage at which `state` rests.
pub open spec fn stage_of(state: SubscriptionView) -> Stage {
    match state {
        SubscriptionView::Received => Stage::Received,
        SubscriptionView::Validated { .. } => Stage::Validated,
        SubscriptionView::Persisted => Stage::Persisted,
        SubscriptionView::Accepted { .. } => Stage::Accepted,
        SubscriptionView::ValidationFailed { .. } => Stage::ValidationFailed,
        SubscriptionView::PersistenceFailed { .. } => Stage::PersistenceFailed,
        SubscriptionView::NotificationFailed { .. } => Stage::NotificationFailed,
    }
}

/// Whether a request that has reached `stage` is over.
pub open spec fn is_final(stage: Stage) -> bool {
    stage == Stage::Accepted || stage == Stage::ValidationFailed || stage
        == Stage::PersistenceFailed || stage == Stage::NotificationFailed
}

/// What the submitter is told when the request ends at `stage`.
pub open spec fn outcome_of(stage: Stage) -> Option<Outcome> {
    match stage {
        Stage::Accepted => Some(Outcome::Accepted),
        Stage::ValidationFailed => Some(Outcome::BadRequest),
        Stage::PersistenceFailed => Some(Outcome::InternalError),
        Stage::NotificationFailed => Some(Outcome::InternalError),
        _ => None,
    }
}

/// The stage that follows `stage`, given whether the work of `stage`
/// succeeded. A final stage is followed by itself.
pub open spec fn next_stage(stage: Stage, succeeded: bool) -> Stage {
    match stage {
        Stage::Received => if succeeded {
            Stage::Validated
        } else {
            Stage::ValidationFailed
        },
        Stage::Validated => if succeeded {
            Stage::Persisted
        } else {
            Stage::PersistenceFailed
        },
        Stage::Persisted => if succeeded {
            Stage::Notified
        } else {
            Stage::NotificationFailed
        },
        Stage::Notified => Stage::Accepted,
        _ => stage,
    }
}

/// Where `event` takes a request that rests in `state`, and what is to be
/// done then. An event that the stage does not wait for changes nothing and
/// asks for nothing.
pub open spec fn step(state: SubscriptionView, event: Event, client: EmailClientView) -> (
    SubscriptionView,
    Option<ActionView>,
) {
    match (state, event) {
        (SubscriptionView::Received, Event::Submitted(form)) => match form_error(
            form.name@,
            form.email@,
        ) {
            None => (
                SubscriptionView::Validated { recipient: form.email@ },
                Some(
                    ActionView::Persist {
                        email: form.email@,
                        name: form.name@,
                        status: stored_status(),
                    },
                ),
            ),
            Some(error) => (
                SubscriptionView::ValidationFailed { error },
                Some(ActionView::Respond(Outcome::BadRequest)),
            ),
        },
        (SubscriptionView::Validated { recipient }, Event::Stored(result)) => match result {
            Ok(_) => (
                SubscriptionView::Persisted,
                Some(
                    ActionView::Send(
                        send_request(client, recipient, welcome_subject(), welcome_body()),
                    ),
                ),
            ),
            Err(error) => (
                SubscriptionView::PersistenceFailed { cause: error.cause@ },
                Some(ActionView::Respond(Outcome::InternalError)),
            ),
        },
        (SubscriptionView::Persisted, Event::Replied(reply)) => match reply_outcome(reply) {
            Ok(record) => (
                SubscriptionView::Accepted { record },
                Some(ActionView::Respond(Outcome::Accepted)),
            ),
            Err(failure) => (
                SubscriptionView::NotificationFailed { failure },
                Some(ActionView::Respond(Outcome::InternalError)),
            ),
        },
        _ => (state, None),
    }
}

/// The stage that a step reaches from `stage`: the next stage, and from
/// `Notified` on to `Accepted` at once.
pub open spec fn stage_after(stage: Stage, succeeded: bool) -> Stage {
    let next = next_stage(stage, succeeded);
    if next == Stage::Notified {
        next_stage(next, true)
    } else {
        next
    }
}

/// Whether the work that `event` reports on has succeeded.
pub open spec fn succeeded(event: Event) -> bool {
    match event {
        Event::Submitted(form) => form_error(form.name@, form.email@) is None,
        Event::Stored(result) => result is Ok,
        Event::Replied(reply) => reply_outcome(reply) is Ok,
    }
}

/// Whether a request at `stage` waits for `event`.
pub open spec fn awaits(stage: Stage, event: Event) -> bool {
    match (stage, event) {
        (Stage::Received, Event::Submitted(_)) => true,
        (Stage::Validated, Event::Stored(_)) => true,
        (Stage::Persisted, Event::Replied(_)) => true,
        _ => false,
    }
}

/// The actions that a request asks for from its start to its end, when the
/// store answers with `stored` and the request to the provider ends with
/// `reply`. Neither is looked at unless the request gets that far.
pub open spec fn transcript(
    form: FormData,
    stored: Result<(), PersistenceError>,
    reply: TransportReply,
    client: EmailClientView,
) -> Seq<ActionView> {
    let first = step(SubscriptionView::Received, Event::Submitted(form), client);
    if stage_of(first.0) != Stage::Validated {
        seq![first.1.unwrap()]
    } else {
        let second = step(first.0, Event::Stored(stored), client);
        if stage_of(second.0) != Stage::Persisted {
            seq![first.1.unwrap(), second.1.unwrap()]
        } else {
            let third = step(second.0, Event::Replied(reply), client);
            seq![first.1.unwrap(), second.1.unwrap(), third.1.unwrap()]
        }
    }
}

/// A step follows the path of the stages: an awaited event takes the
/// request to the stage after the one it rests in, and any other event
/// leaves it where it is, with nothing to do.
pub proof fn step_follows_the_stages(state: SubscriptionView, event: Event, client: EmailClientView)
    ensures
        awaits(stage_of(state), event) ==> stage_of(step(state, event, client).0)
            == stage_after(stage_of(state), succeeded(event)) && step(
            state,
            event,
            client,
        ).1 is Some,
        !awaits(stage_of(state), event) ==> step(state, event, client) == (
            state,
            None::<ActionView>,
        ),
{
}

/// A request that is over stays as it is: no event moves it, and nothing
/// more is stored, sent or answered.
pub proof fn final_stages_are_final(state: SubscriptionView, event: Event, client: EmailClientView)
    requires
        is_final(stage_of(state)),
    ensures
        step(state, event, client) == (state, None::<ActionView>),
{
}

/// The submitter is answered exactly when the request reaches a final
/// stage, and is told the outcome of that stage.
pub proof fn answer_ends_the_request(state: SubscriptionView, event: Event, client: EmailClientView)
    ensures
        match step(state, event, client).1 {
            Some(ActionView::Respond(outcome)) => outcome_of(
                stage_of(step(state, event, client).0),
            ) == Some(outcome),
            Some(_) => !is_final(stage_of(step(state, event, client).0)),
            None => true,
        },
{
}

/// A subscriber is handed to the store only when a valid form has just come
/// in, as that form gives it and with the status `confirmed`.
pub proof fn only_a_valid_form_is_stored(
    state: SubscriptionView,
    event: Event,
    client: EmailClientView,
)
    ensures
        step(state, event, client).1 matches Some(ActionView::Persist { email, name, status })
            ==> {
            &&& state == SubscriptionView::Received
            &&& event matches Event::Submitted(form)
            &&& form.email@ == email
            &&& form.name@ == name
            &&& is_valid_email(email)
            &&& is_valid_name(name)
            &&& status == stored_status()
        },
{
}

/// No email goes out for a subscriber that is not stored: a send is asked
/// for only when the store has just reported success, and then it is the
/// confirmation email to the subscriber that was stored.
pub proof fn only_a_stored_subscriber_is_notified(
    state: SubscriptionView,
    event: Event,
    client: EmailClientView,
)
    ensures
        step(state, event, client).1 matches Some(ActionView::Send(request)) ==> {
            &&& state matches SubscriptionView::Validated { recipient }
            &&& event matches Event::Stored(Ok(_))
            &&& request == send_request(client, recipient, welcome_subject(), welcome_body())
        },
{
}

/// A form with an invalid name or address is answered with `BadRequest`
/// and with nothing else: nothing is stored and nothing is sent, whatever
/// the store or the provider would have said.
pub proof fn invalid_form_is_only_answered(
    form: FormData,
    stored: Result<(), PersistenceError>,
    reply: TransportReply,
    client: EmailClientView,
)
    requires
        !is_valid_name(form.name@) || !is_valid_email(form.email@),
    ensures
        transcript(form, stored, reply, client) == seq![ActionView::Respond(Outcome::BadRequest)],
{
}

/// A valid form is stored once. If the store fails, the request ends with
/// `InternalError` and nothing is sent. Otherwise the confirmation email is
/// sent once, and the request ends with `Accepted` if the provider takes it
/// and with `InternalError` if not.
pub proof fn valid_form_is_stored_then_notified(
    form: FormData,
    stored: Result<(), PersistenceError>,
    reply: TransportReply,
    client: EmailClientView,
)
    requires
        is_valid_name(form.name@),
        is_valid_email(form.email@),
    ensures
        ({
            let persist = ActionView::Persist {
                email: form.email@,
                name: form.name@,
                status: stored_status(),
            };
            let send = ActionView::Send(
                send_request(client, form.email@, welcome_subject(), welcome_body()),
            );
            transcript(form, stored, reply, client) == if stored is Err {
                seq![persist, ActionView::Respond(Outcome::InternalError)]
            } else if reply_outcome(reply) is Err {
                seq![persist, send, ActionView::Respond(Outcome::InternalError)]
            } else {
                seq![persist, send, ActionView::Respond(Outcome::Accepted)]
            }
        }),
{
}

/// The body of the confirmation email.
pub fn confirmation_body() -> (body: String)
    ensures
        body@ == welcome_body(),
{
    let confirmation_link = "https://my-api.com/subscriptions/confirm";
    let mut body = String::from_str("Click <a href=\"");
    body.append(confirmation_link);
    body.append("\">here</a> to confirm your subscription.");
    body
}

impl Subscription {
    /// A request of which nothing has been looked at yet.
    pub fn new() -> (subscription: Subscription)
        ensures
            subscription@ == SubscriptionView::Received,
    {
        Subscription { state: State::Received }
    }

    /// The stage at which the request rests.
    pub fn stage(&self) -> (stage: Stage)
        ensures
            stage == stage_of(self@),
    {
        match &self.state {
            State::Received => Stage::Received,
            State::Validated { .. } => Stage::Validated,
            State::Persisted => Stage::Persisted,
            State::Accepted { .. } => Stage::Accepted,
            State::ValidationFailed { .. } => Stage::ValidationFailed,
            State::PersistenceFailed { .. } => Stage::PersistenceFailed,
            State::NotificationFailed { .. } => Stage::NotificationFailed,
        }
    }

    /// What the submitter is told, once the request is over.
    pub fn outcome(&self) -> (outcome: Option<Outcome>)
        ensures
            outcome == outcome_of(stage_of(self@)),
    {
        match &self.state {
            State::Accepted { .. } => Some(Outcome::Accepted),
            State::ValidationFailed { .. } => Some(Outcome::BadRequest),
            State::PersistenceFailed { .. } => Some(Outcome::InternalError),
            State::NotificationFailed { .. } => Some(Outcome::InternalError),
            _ => None,
        }
    }

    /// Why the form was turned down, if it was.
    pub fn validation_error(&self) -> (error: Option<&ValidationError>)
        ensures
            match error {
                Some(e) => self@ == (SubscriptionView::ValidationFailed { error: e@ }),
                None => stage_of(self@) != Stage::ValidationFailed,
            },
    {
        match &self.state {
            State::ValidationFailed { error } => Some(error),
            _ => None,
        }
    }

    /// Why the subscriber could not be stored, if it could not.
    pub fn persistence_error(&self) -> (error: Option<&PersistenceError>)
        ensures
            match error {
                Some(e) => self@ == (SubscriptionView::PersistenceFailed { cause: e.cause@ }),
                None => stage_of(self@) != Stage::PersistenceFailed,
            },
    {
        match &self.state {
            State::PersistenceFailed { fault } => Some(fault),
            _ => None,
        }
    }

    /// Why the confirmation email could not be sent, if it could not.
    pub fn notification_error(&self) -> (error: Option<&EmailError>)
        ensures
            match error {
                Some(e) => self@ == (SubscriptionView::NotificationFailed { failure: e@ }),
                None => stage_of(self@) != Stage::NotificationFailed,
            },
    {
        match &self.state {
            State::NotificationFailed { failure } => Some(failure),
            _ => None,
        }
    }

    /// The provider's record of the confirmation email, once the request is
    /// accepted. The issues it lists are for the log.
    pub fn record(&self) -> (record: Option<&EmailSendResponse>)
        ensures
            match record {
                Some(r) => self@ == (SubscriptionView::Accepted { record: r@ }),
                None => stage_of(self@) != Stage::Accepted,
            },
    {
        match &self.state {
            State::Accepted { record } => Some(record),
            _ => None,
        }
    }
}

/// Takes the request on by one step: given what has happened, says where
/// the request stands now and what is to be done next. The confirmation
/// email goes out through `email_client`.
pub fn subscribe(state: Subscription, event: Event, email_client: &EmailClient) -> (r: (
    Subscription,
    Option<Action>,
))
    ensures
        (r.0@, action_view(r.1)) == step(state@, event, email_client@),
{
    match state.state {
        State::Received => match event {
            Event::Submitted(form) => match NewSubscriber::try_from(form) {
                Ok(subscriber) => {
                    let recipient = subscriber.email.clone();
                    (
                        Subscription { state: State::Validated { recipient } },
                        Some(
                            Action::Persist {
                                subscriber,
                                status: String::from_str("confirmed"),
                            },
                        ),
                    )
                },
                Err(error) => (
                    Subscription { state: State::ValidationFailed { error } },
                    Some(Action::Respond(Outcome::BadRequest)),
                ),
            },
            _ => (Subscription { state: State::Received }, None),
        },
        State::Validated { recipient } => match event {
            Event::Stored(Ok(_)) => {
                let body = confirmation_body();
                let request = email_client.send_email(recipient, "Welcome", body.as_str());
                (Subscription { state: State::Persisted }, Some(Action::Send(request)))
            },
            Event::Stored(Err(fault)) => (
                Subscription { state: State::PersistenceFailed { fault } },
                Some(Action::Respond(Outcome::InternalError)),
            ),
            _ => (Subscription { state: State::Validated { recipient } }, None),
        },
        State::Persisted => match event {
            Event::Replied(reply) => match EmailClient::read_reply(reply) {
                Ok(record) => (
                    Subscription { state: State::Accepted { record } },
                    Some(Action::Respond(Outcome::Accepted)),
                ),
                Err(failure) => (
                    Subscription { state: State::NotificationFailed { failure } },
                    Some(Action::Respond(Outcome::InternalError)),
                ),
            },
            _ => (Subscription { state: State::Persisted }, None),
        },
        over => (Subscription { state: over }, None),
    }
}

} // verus!
