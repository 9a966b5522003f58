//! A double-opt-in mailing list: validated registration, confirmation-link
//! redemption, and credential-gated newsletter fan-out.
use vstd::prelude::*;

pub mod authentication;
pub mod configuration;
pub mod domain;
pub mod email;
pub mod newsletters;
pub mod routes;
pub mod store;
pub mod subscriptions;
pub mod subscriptions_confirm;

verus! {

} // verus!
