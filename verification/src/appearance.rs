//! How the dialog looks, as far as its state decides it.

use vstd::prelude::*;
use vstd::string::*;
use crate::dialog::AuthenticatorApp;

verus! {

/// How often the program looks for results while nothing else happens.
pub const IDLE_POLL_MS: u64 = 50;

/// The window that the dialog asks for.
#[derive(Debug)]
pub struct WindowSettings {
    pub title: String,
    pub app_id: String,
    pub width: u32,
    pub height: u32,
    pub fullscreen: bool,
    pub min_size: Option<(u32, u32)>,
}

/// The window is sized to its content: title band, two column wells, status shelf.
pub fn settings() -> (settings: WindowSettings)
    ensures
        settings.title@ == "CCE Authenticator"@,
        settings.app_id@ == "cce-authenticator"@,
        settings.width == 640,
        settings.height == 360,
        !settings.fullscreen,
        settings.min_size == Some((560u32, 340u32)),
{
    WindowSettings {
        title: "CCE Authenticator".to_owned(),
        app_id: "cce-authenticator".to_owned(),
        width: 640,
        height: 360,
        fullscreen: false,
        min_size: Some((560, 340)),
    }
}

/// How the fingerprint reader's button is painted.
#[derive(Clone, Copy, Debug, PartialEq, Eq, Structural)]
pub enum ReaderFace {
    /// The authentication succeeded.
    Accepted,
    /// The reader waits for a finger.
    Glowing,
    /// Pressing the button starts a scan.
    Ready,
    /// Pressing the button does nothing.
    Inert,
}

/// The tone of a line of text.
#[derive(Clone, Copy, Debug, PartialEq, Eq, Structural)]
pub enum Tone {
    Success,
    Error,
    Normal,
    Subdued,
}

impl AuthenticatorApp {
    /// How the fingerprint reader's button is painted.
    pub fn reader_face(&self) -> (face: ReaderFace)
        ensures
            face == if self@.fingerprint_success {
                ReaderFace::Accepted
            } else if self@.fingerprint_active {
                ReaderFace::Glowing
            } else if self@.fingerprint_interactive {
                ReaderFace::Ready
            } else {
                ReaderFace::Inert
            },
    {
        if self.fingerprint_success {
            ReaderFace::Accepted
        } else if self.fingerprint_active {
            ReaderFace::Glowing
        } else if self.fingerprint_interactive {
            ReaderFace::Ready
        } else {
            ReaderFace::Inert
        }
    }

    /// The tone of the caption under the reader: subdued while the column is not in use.
    pub fn caption_tone(&self) -> (tone: Tone)
        ensures
            tone == if self@.fingerprint_success {
                Tone::Success
            } else if self@.fingerprint_interactive || self@.fingerprint_active {
                Tone::Normal
            } else {
                Tone::Subdued
            },
    {
        if self.fingerprint_success {
            Tone::Success
        } else if self.fingerprint_interactive || self.fingerprint_active {
            Tone::Normal
        } else {
            Tone::Subdued
        }
    }

    /// The tone of the status line. A success outshines an error.
    pub fn status_tone(&self) -> (tone: Tone)
        ensures
            tone == if self@.status_is_success {
                Tone::Success
            } else if self@.status_is_error {
                Tone::Error
            } else {
                Tone::Normal
            },
    {
        if self.status_is_success {
            Tone::Success
        } else if self.status_is_error {
            Tone::Error
        } else {
            Tone::Normal
        }
    }
}

/// Results are looked for twenty times a second.
pub proof fn law_results_are_looked_for_often()
    ensures
        IDLE_POLL_MS * 20 == 1000,
{
}

} // verus!
