use cce_authenticator::appearance::{settings, ReaderFace, Tone};
use cce_authenticator::dialog::AuthenticatorApp;
use cce_authenticator::request::GuiRequest;

fn standalone() -> AuthenticatorApp {
    AuthenticatorApp::opened(None::<&GuiRequest<()>>, false, 1000).0
}

#[test]
fn the_window_has_its_size() {
    let s = settings();
    assert_eq!(s.title, "CCE Authenticator");
    assert_eq!(s.app_id, "cce-authenticator");
    assert_eq!((s.width, s.height), (640, 360));
    assert!(!s.fullscreen);
    assert_eq!(s.min_size, Some((560, 340)));
}

#[test]
fn the_state_decides_the_look() {
    let mut app = standalone();
    assert_eq!(app.reader_face(), ReaderFace::Ready);
    assert_eq!(app.caption_tone(), Tone::Normal);
    assert_eq!(app.status_tone(), Tone::Normal);

    app.fingerprint_interactive = false;
    assert_eq!(app.reader_face(), ReaderFace::Inert);
    assert_eq!(app.caption_tone(), Tone::Subdued);

    app.fingerprint_active = true;
    assert_eq!(app.reader_face(), ReaderFace::Glowing);
    assert_eq!(app.caption_tone(), Tone::Normal);

    app.fingerprint_success = true;
    assert_eq!(app.reader_face(), ReaderFace::Accepted);
    assert_eq!(app.caption_tone(), Tone::Success);

    app.status_is_error = true;
    assert_eq!(app.status_tone(), Tone::Error);
    app.status_is_success = true;
    assert_eq!(app.status_tone(), Tone::Success);
}
