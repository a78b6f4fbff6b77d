//! Validated domain values: a subscriber's display name and email address,
//! and the pair of them that a registration submits.

mod new_subscriber;
mod subscriber_email;
mod subscriber_name;

pub use new_subscriber::NewSubscriber;
pub use subscriber_email::email_ok;
pub use subscriber_email::SubscriberEmail;
pub use subscriber_name::grapheme_count;
pub use subscriber_name::name_ok;
pub use subscriber_name::SubscriberName;
