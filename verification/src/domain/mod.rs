//! Validated values that enter the system from forms and query strings.

pub mod new_subscriber;
pub mod password_reset_token;
pub mod subscriber_email;
pub mod subscriber_name;
pub mod subscriber_password;
pub mod subscription_token;

pub use new_subscriber::NewSubscriber;
pub use password_reset_token::PasswordResetToken;
pub use subscriber_password::SubscriberPassword;
pub use subscription_token::SubscriptionToken;
pub use subscriber_email::SubscriberEmail;
pub use subscriber_name::SubscriberName;
