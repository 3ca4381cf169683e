//! A subscriber whose name and address were both accepted.

use vstd::prelude::*;
use crate::domain::subscriber_email::SubscriberEmail;
use crate::domain::subscriber_name::SubscriberName;

verus! {

/// A new subscriber.
#[derive(Debug)]
pub struct NewSubscriber {
    pub email: SubscriberEmail,
    pub name: SubscriberName,
}

} // verus!
