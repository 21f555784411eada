//! Account credentials, signup validation, session issuance and database
//! role provisioning for an application whose users are also database
//! principals.

pub mod credentials;
pub mod guarantees;
pub mod hashing;
pub mod http;
pub mod listing;
pub mod login;
pub mod model;
pub mod models;
pub mod provisioning;
pub mod race;
pub mod session;
pub mod signup;
pub mod store;
pub mod text;
pub mod validation;
