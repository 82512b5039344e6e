//! The decisions of a session authenticator: a polkit agent with a password and
//! fingerprint dialog.
//!
//! The library decides; the program around it owns the sockets, the helper process, the
//! fingerprint reader and the window, reports what happened and performs what it is told to.
//! What goes in and comes out are plain values. Only `identity::current_user`,
//! `identity::current_username`, `identity::resolve_request` and
//! `dialog::AuthenticatorApp::new` ask the machine: who runs the process, and whom the
//! account database knows. Beside each stands a function that takes the answer as a value.

pub mod accounts;
pub mod appearance;
pub mod attempt;
pub mod caption;
pub mod cookies;
pub mod dialog;
pub mod dialog_laws;
pub mod dialog_steps;
pub mod fingerprint;
pub mod helper;
pub mod identity;
pub mod input;
pub mod message;
pub mod pam;
pub mod request;
pub mod session;
pub mod simulate;
pub mod text;
