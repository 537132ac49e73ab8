//! A personal-finance tracker's application core: the screen-transition
//! controller (a reducer over user intents), the session state it mutates,
//! the validation rules, the render-time transaction views, and in-memory
//! credential / transaction / category stores with exact contracts.

pub mod transaction;
pub mod state;
pub mod validate;
pub mod timedate;
pub mod controller;
pub mod view_data;
pub mod store;
pub mod auth;
