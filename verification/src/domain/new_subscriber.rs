use crate::domain::subscriber_email::SubscriberEmail;
use crate::domain::subscriber_name::SubscriberName;
use vstd::prelude::*;

verus! {

/// A subscriber whose email address and name are both valid. Subscriber
/// data reaches the store and the email provider in this form only.
#[derive(Debug)]
pub struct NewSubscriber {
    pub email: SubscriberEmail,
    pub name: SubscriberName,
}

} // verus!
