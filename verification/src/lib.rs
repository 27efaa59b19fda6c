//! Policy of the Nixy greeter, a login form for greetd: the login attempt, the form
//! around it, the worker that talks to greetd, and the command line.
pub mod form;
pub mod form_changes;
pub mod form_laws;
pub mod login;
pub mod login_laws;
pub mod options;
pub mod protocol;
pub mod secret;
pub mod text;
pub mod worker;

pub use crate::login::{Login, Step};
