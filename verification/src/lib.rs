use vstd::prelude::*;

pub mod text;
pub mod trusted;
pub mod platform;
pub mod json;
pub mod permission;
pub mod ledger;
pub mod numbering;
pub mod validation;
pub mod objects;
pub mod audit;
pub mod actions;
pub mod events;
pub mod middleware;
pub mod meta;
pub mod modules;
pub mod plugin;
pub mod notify;
pub mod devices;
pub mod company;
pub mod person;
pub mod crypto;
pub mod session;
pub mod auth;
pub mod messaging;
pub mod convert;
pub mod reports;
pub mod users;

verus! {
} // verus!
