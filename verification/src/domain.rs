//! Validated domain types. A value of one of these types is always valid.

pub mod error;
pub mod new_subscriber;
pub mod subscriber_email;
pub mod subscriber_name;

pub use error::NameRule;
pub use error::ValidationError;
pub use new_subscriber::NewSubscriber;
pub use subscriber_email::SubscriberEmail;
pub use subscriber_name::SubscriberName;
