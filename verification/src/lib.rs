//! The decision core of the CAP-CDTS backend: users, reports, sessions, GPIO
//! configuration and the self-update run, with every rule stated as a contract.

pub mod access_laws;
pub mod api;
pub mod auth;
pub mod basics_laws;
pub mod clock;
pub mod endpoints;
pub mod fresh;
pub mod gpio;
pub mod history;
pub mod models;
pub mod numbering;
pub mod order;
pub mod passcode;
pub mod paths;
pub mod policy;
pub mod settings;
pub mod store;
pub mod store_laws;
pub mod text;
pub mod update;
pub mod update_laws;
pub mod view_laws;
