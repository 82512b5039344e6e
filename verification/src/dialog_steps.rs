//! What each thing that happens to the dialog does to it, and to it alone.

use vstd::prelude::*;
use crate::dialog::{closes, request_view, AppView, AuthenticatorApp, Effect, EffectView, RequestView};
use crate::message::{AuthResult, MessageView, ResultView};
use crate::request::GuiRequest;
use crate::text::{lowercased, occurs_in};

verus! {

/// A dialog that opens for a request shows the request's message, leaves the reader to PAM,
/// simulates for nobody, and asks for a helper for the request's user and cookie.
pub proof fn law_opens_for_a_request(request: RequestView, env_requested: bool, uid: u32)
    ensures
        ({
            let app = AppView::opened(Some(request), env_requested, uid);
            &&& app.polkit_mode
            &&& !app.simulate_mode
            &&& app.username == request.username
            &&& app.cookie == request.cookie
            &&& app.status_msg == request.message
            &&& app.fingerprint_msg == "Handled by PAM — follow the prompt"@
            &&& app.fingerprint_label == "Reader"@
            &&& !app.fingerprint_interactive
            &&& app.opening_effect() == EffectView::SpawnHelper(request.username, request.cookie)
        }),
{
}

/// A standalone dialog offers the reader, has no request and no helper, and simulates exactly
/// where the environment asks for it or root runs it.
pub proof fn law_opens_standalone(env_requested: bool, uid: u32)
    ensures
        ({
            let app = AppView::opened(None, env_requested, uid);
            &&& !app.polkit_mode
            &&& app.simulate_mode <==> env_requested || uid == 0
            &&& app.username == Seq::<char>::empty()
            &&& app.cookie == Seq::<char>::empty()
            &&& app.status_msg == "Authenticate using password or fingerprint"@
            &&& app.fingerprint_msg == "Fingerprint scanner ready"@
            &&& app.fingerprint_label == "Scan"@
            &&& app.fingerprint_interactive
            &&& app.opening_effect() == EffectView::Nothing
        }),
{
}

/// However it opens, a dialog starts with an empty password box, no verdict, an idle reader, no
/// helper, and two more attempts after the first.
pub proof fn law_opens_undecided(request: Option<RequestView>, env_requested: bool, uid: u32)
    ensures
        ({
            let app = AppView::opened(request, env_requested, uid);
            &&& app.password_text == Seq::<char>::empty()
            &&& app.password_label == "PASSWORD"@
            &&& !app.status_is_error
            &&& !app.status_is_success
            &&& !app.fingerprint_active
            &&& !app.fingerprint_success
            &&& !app.helper_open
            &&& app.retries_left == 2
        }),
{
}

/// Whatever a dialog is, it asks for a helper when it opens exactly if its request is live.
pub proof fn law_opening_asks_for_a_helper(app: AppView)
    ensures
        app.polkit_mode ==> app.opening_effect() == EffectView::SpawnHelper(
            app.username,
            app.cookie,
        ),
        !app.polkit_mode ==> app.opening_effect() == EffectView::Nothing,
{
}

/// A helper that was started is there to take an answer, and nothing else changes. One that
/// was not leaves the dialog as it was, but for the reason in its status line.
pub proof fn law_started_helper_takes_answers(app: AppView, error: Seq<char>)
    ensures
        app.after_spawn(Ok(())) == (AppView { helper_open: true, ..app }),
        app.after_restart(Ok(())) == (AppView { helper_open: true, ..app }),
        app.after_spawn(Err(error)) == (AppView {
            status_msg: "Failed to spawn helper: "@ + error,
            ..app
        }),
        app.after_restart(Err(error)) == (AppView {
            status_msg: "Could not restart helper: "@ + error,
            ..app
        }),
{
}

/// By itself a dialog starts the simulated success if it simulates, else, standalone, the
/// reader for the current user, or says that there is none. With a live request it starts
/// nothing.
pub proof fn law_dialog_starts_by_itself(app: AppView, user: Option<Seq<char>>)
    ensures
        app.simulate_mode ==> {
            &&& app.start_effect(user) == EffectView::SendLater(2000, ResultView::Success)
            &&& app.started(user) == (AppView {
                status_msg: "SIMULATION MODE: use password 'password' or click fingerprint"@,
                fingerprint_msg: "Click fingerprint sensor to scan"@,
                ..app
            })
        },
        !app.simulate_mode && !app.polkit_mode ==> {
            &&& user matches Some(name) ==> app.start_effect(user) == EffectView::WatchReader(name)
                && app.started(user) == app
            &&& user is None ==> app.start_effect(user) == EffectView::Nothing && app.started(user)
                == (AppView { fingerprint_msg: "Cannot determine the current user"@, ..app })
        },
        !app.simulate_mode && app.polkit_mode ==> {
            &&& app.start_effect(user) == EffectView::Nothing
            &&& app.started(user) == app
        },
        app.runs_for_user() <==> !app.simulate_mode && !app.polkit_mode,
{
}

/// With a live request and a helper that is there, the password that stands in the box goes to
/// the helper as a line, whatever is shown but a success: an earlier failure, an error or a
/// notice is no obstacle. The box is emptied, and the error is gone from the status line.
pub proof fn law_password_reaches_the_helper(app: AppView)
    requires
        app.polkit_mode,
        app.helper_open,
        !app.status_is_success,
    ensures
        app.effect(MessageView::PasswordVerify) == EffectView::WriteHelper(
            app.password_text + "\n"@,
        ),
        app.after(MessageView::PasswordVerify) == (AppView {
            password_text: Seq::<char>::empty(),
            status_msg: "Verifying password..."@,
            status_is_error: false,
            ..app
        }),
{
}

/// A failed attempt is followed by another as long as retries are left: once the helper was
/// started again, the next password that is typed reaches it, whatever the failure said and
/// whatever the new helper prompted for.
pub proof fn law_next_attempt_reaches_the_next_helper(
    app: AppView,
    error: Seq<char>,
    prompt: Seq<char>,
    echo: bool,
    typed: Seq<char>,
)
    requires
        app.polkit_mode,
        !app.status_is_success,
        app.retries_left > 0,
    ensures
        ({
            let failure = MessageView::AuthDone(ResultView::Failure(error));
            let again = app.after(failure).after_restart(Ok(()));
            let prompted = again.after(MessageView::PromptReceived(prompt, echo));
            let ready = AppView { password_text: typed, ..again };
            let asked = AppView { password_text: typed, ..prompted };
            &&& app.effect(failure) == EffectView::SpawnHelper(app.username, app.cookie)
            &&& again.status_is_error
            &&& again.status_msg == error
            &&& ready.effect(MessageView::PasswordVerify) == EffectView::WriteHelper(
                typed + "\n"@,
            )
            &&& asked.effect(MessageView::PasswordVerify) == EffectView::WriteHelper(
                typed + "\n"@,
            )
        }),
{
}

/// With a live request and no helper, verifying says so, keeps what was typed, and asks for
/// nothing.
pub proof fn law_password_waits_for_a_helper(app: AppView)
    requires
        app.polkit_mode,
        !app.helper_open,
        !app.status_is_success,
    ensures
        app.effect(MessageView::PasswordVerify) == EffectView::Nothing,
        app.after(MessageView::PasswordVerify) == (AppView {
            status_msg: "No authentication helper — press Escape to cancel"@,
            status_is_error: true,
            ..app
        }),
{
}

/// Standalone, the password that stands in the box is checked, whatever is shown but a success:
/// by PAM, or simulated, after a while, with success for the word itself and for nothing at
/// all. What was typed stays in the box.
pub proof fn law_standalone_password_is_checked(app: AppView)
    requires
        !app.polkit_mode,
        !app.status_is_success,
    ensures
        !app.simulate_mode ==> app.effect(MessageView::PasswordVerify)
            == EffectView::CheckPassword(app.password_text),
        app.simulate_mode && (app.password_text == "password"@ || app.password_text.len() == 0)
            ==> app.effect(MessageView::PasswordVerify) == EffectView::SendLater(
            800,
            ResultView::Success,
        ),
        app.simulate_mode && app.password_text != "password"@ && app.password_text.len() > 0
            ==> app.effect(MessageView::PasswordVerify) == EffectView::SendLater(
            800,
            ResultView::Failure("Invalid password (use 'password' or empty)"@),
        ),
        app.after(MessageView::PasswordVerify) == (AppView {
            status_msg: "Verifying password..."@,
            status_is_error: false,
            ..app
        }),
{
}

/// While a success is shown, verifying changes nothing and asks for nothing, in every dialog.
pub proof fn law_shown_success_is_left_alone(app: AppView)
    requires
        app.status_is_success,
    ensures
        app.after(MessageView::PasswordVerify) == app,
        app.effect(MessageView::PasswordVerify) == EffectView::Nothing,
{
}

/// A scan starts exactly where the dialog stands alone and nothing has succeeded yet, whatever
/// else is shown: on the reader, or simulated, after a while. Elsewhere asking for one changes
/// nothing.
pub proof fn law_scan_starts_standalone(app: AppView)
    ensures
        !app.polkit_mode && !app.status_is_success && !app.fingerprint_success ==> {
            &&& app.after(MessageView::FingerprintScanStart) == (AppView {
                fingerprint_active: true,
                fingerprint_msg: "Place finger on reader..."@,
                ..app
            })
            &&& !app.simulate_mode ==> app.effect(MessageView::FingerprintScanStart)
                == EffectView::ScanFinger
            &&& app.simulate_mode ==> app.effect(MessageView::FingerprintScanStart)
                == EffectView::SendLater(1500, ResultView::Success)
        },
        app.polkit_mode || app.status_is_success || app.fingerprint_success ==> {
            &&& app.after(MessageView::FingerprintScanStart) == app
            &&& app.effect(MessageView::FingerprintScanStart) == EffectView::Nothing
        },
{
}

/// A cancellation leaves the dialog as it is, and has a helper killed if there is one.
pub proof fn law_cancel_changes_nothing(app: AppView)
    ensures
        app.after(MessageView::Cancel) == app,
        app.helper_open ==> app.effect(MessageView::Cancel) == EffectView::KillHelper,
        !app.helper_open ==> app.effect(MessageView::Cancel) == EffectView::Nothing,
{
}

/// A prompt labels the password box and empties it, whether or not its answer may be echoed,
/// and touches nothing else.
pub proof fn law_prompt_labels_the_box(app: AppView, prompt: Seq<char>, echo: bool)
    ensures
        app.after(MessageView::PromptReceived(prompt, echo)) == (AppView {
            password_label: prompt,
            password_text: Seq::<char>::empty(),
            ..app
        }),
        app.effect(MessageView::PromptReceived(prompt, echo)) == EffectView::Nothing,
{
}

/// A message of the authentication stack is shown as it came, as an error exactly if it is one,
/// and takes a shown success away. If it speaks of a finger, in whatever case, the reader is
/// shown to wait for it; else the reader is left alone.
pub proof fn law_status_is_shown_as_it_came(app: AppView, text: Seq<char>, is_error: bool)
    ensures
        ({
            let msg = MessageView::StatusReceived(text, is_error);
            &&& occurs_in("finger"@, lowercased(text)) ==> app.after(msg) == (AppView {
                status_msg: text,
                status_is_error: is_error,
                status_is_success: false,
                fingerprint_active: true,
                fingerprint_msg: "Waiting for finger…"@,
                ..app
            })
            &&& !occurs_in("finger"@, lowercased(text)) ==> app.after(msg) == (AppView {
                status_msg: text,
                status_is_error: is_error,
                status_is_success: false,
                ..app
            })
            &&& app.effect(msg) == EffectView::Nothing
        }),
{
}

/// The same holds of a message whose text in lowercase is given.
pub proof fn law_finger_is_looked_for(
    app: AppView,
    text: Seq<char>,
    is_error: bool,
    lowered: Seq<char>,
)
    ensures
        ({
            let told = app.after_status(text, is_error, lowered);
            &&& told.status_msg == text
            &&& told.status_is_error == is_error
            &&& !told.status_is_success
            &&& occurs_in("finger"@, lowered) ==> told.fingerprint_active && told.fingerprint_msg
                == "Waiting for finger…"@
            &&& !occurs_in("finger"@, lowered) ==> told.fingerprint_active
                == app.fingerprint_active && told.fingerprint_msg == app.fingerprint_msg
            &&& told == (AppView {
                status_msg: told.status_msg,
                status_is_error: told.status_is_error,
                status_is_success: told.status_is_success,
                fingerprint_active: told.fingerprint_active,
                fingerprint_msg: told.fingerprint_msg,
                ..app
            })
        }),
{
}

/// A success is shown as one, on the status line and on the reader, whatever was shown before.
/// A live request is granted and its window closes after a while; standalone the program ends.
pub proof fn law_success_is_shown(app: AppView)
    ensures
        ({
            let msg = MessageView::AuthDone(ResultView::Success);
            &&& app.after(msg) == (AppView {
                status_is_success: true,
                status_is_error: false,
                fingerprint_success: true,
                fingerprint_active: false,
                status_msg: "Authentication Successful!"@,
                fingerprint_msg: "Authenticated"@,
                ..app
            })
            &&& app.polkit_mode ==> app.effect(msg) == EffectView::Grant(800)
            &&& !app.polkit_mode ==> app.effect(msg) == EffectView::ExitProcess(1000)
        }),
{
}

/// A failure is shown as an error. Standalone that is all. With a live request the helper is
/// given up and the box emptied; as long as retries are left one is used up for a new helper
/// for the same user and cookie, and after the last one the way out is shown instead.
pub proof fn law_failure_is_shown(app: AppView, error: Seq<char>)
    ensures
        ({
            let msg = MessageView::AuthDone(ResultView::Failure(error));
            let next = app.after(msg);
            &&& !app.polkit_mode ==> {
                &&& app.effect(msg) == EffectView::Nothing
                &&& next == (AppView { status_is_error: true, status_msg: error, ..app })
            }
            &&& app.polkit_mode && app.retries_left > 0 ==> {
                &&& app.effect(msg) == EffectView::SpawnHelper(app.username, app.cookie)
                &&& next.retries_left == app.retries_left - 1
                &&& next == (AppView {
                    status_is_error: true,
                    status_msg: error,
                    helper_open: false,
                    password_text: Seq::<char>::empty(),
                    retries_left: next.retries_left,
                    ..app
                })
            }
            &&& app.polkit_mode && app.retries_left == 0 ==> {
                &&& app.effect(msg) == EffectView::Nothing
                &&& next == (AppView {
                    status_is_error: true,
                    status_msg: error + " — press Escape to cancel"@,
                    helper_open: false,
                    password_text: Seq::<char>::empty(),
                    ..app
                })
            }
        }),
{
}

/// News of the reader is shown as it came. It turns simulation on exactly if the dialog stands
/// alone and the news speaks of a missing reader or of simulation; nothing turns it off.
pub proof fn law_reader_news_is_shown(app: AppView, news: Seq<char>)
    ensures
        ({
            let msg = MessageView::AuthDone(ResultView::FingerprintStatus(news));
            let missing = occurs_in("Simulation mode active"@, news) || occurs_in(
                "No reader"@,
                news,
            );
            &&& app.polkit_mode || !missing ==> app.after(msg) == (AppView {
                fingerprint_msg: news,
                ..app
            })
            &&& !app.polkit_mode && missing ==> app.after(msg) == (AppView {
                fingerprint_msg: news,
                simulate_mode: true,
                ..app
            })
            &&& app.effect(msg) == EffectView::Nothing
        }),
{
}

/// Only a cancellation and the end of a granted window's time close the window, and the latter
/// does nothing else.
pub proof fn law_two_messages_close(app: AppView, msg: MessageView)
    ensures
        closes(MessageView::Cancel),
        closes(MessageView::AuthDone(ResultView::ExitWindow)),
        closes(msg) ==> msg is Cancel || msg == MessageView::AuthDone(ResultView::ExitWindow),
        app.after(MessageView::AuthDone(ResultView::ExitWindow)) == app,
        app.effect(MessageView::AuthDone(ResultView::ExitWindow)) == EffectView::Nothing,
{
}

/// What being well formed means: a live request is never simulated and leaves the reader to
/// PAM, only it has a helper, and it has at most two retries left.
pub proof fn law_well_formed_dialog_is_safe(app: AppView)
    ensures
        app.wf() <==> {
            &&& !(app.polkit_mode && app.simulate_mode)
            &&& app.fingerprint_interactive != app.polkit_mode
            &&& !(app.helper_open && !app.polkit_mode)
            &&& app.retries_left <= 2
        },
{
}

/// The views of the dialog, of what it asks for and of a request show every field as it is.
pub proof fn law_dialog_views_show_everything<T>(
    app: AuthenticatorApp,
    req: &GuiRequest<T>,
    username: String,
    cookie: String,
    n: u64,
    result: AuthResult,
)
    ensures
        app@ == (AppView {
            password_text: app.password_text@,
            password_label: app.password_label@,
            fingerprint_label: app.fingerprint_label@,
            status_msg: app.status_msg@,
            status_is_error: app.status_is_error,
            status_is_success: app.status_is_success,
            fingerprint_msg: app.fingerprint_msg@,
            fingerprint_active: app.fingerprint_active,
            fingerprint_success: app.fingerprint_success,
            fingerprint_interactive: app.fingerprint_interactive,
            simulate_mode: app.simulate_mode,
            polkit_mode: app.polkit_mode,
            helper_open: app.helper_open,
            username: app.username@,
            cookie: app.cookie@,
            retries_left: app.retries_left,
        }),
        request_view(Some(req)) == Some(
            (RequestView { username: req.username@, message: req.message@, cookie: req.cookie@ }),
        ),
        request_view(None::<&GuiRequest<T>>) is None,
        Effect::Nothing@ == EffectView::Nothing,
        (Effect::SpawnHelper { username, cookie })@ == EffectView::SpawnHelper(username@, cookie@),
        Effect::WriteHelper(username)@ == EffectView::WriteHelper(username@),
        Effect::KillHelper@ == EffectView::KillHelper,
        Effect::CheckPassword(username)@ == EffectView::CheckPassword(username@),
        Effect::ScanFinger@ == EffectView::ScanFinger,
        Effect::WatchReader(username)@ == EffectView::WatchReader(username@),
        (Effect::SendLater { delay_ms: n, result })@ == EffectView::SendLater(n, result@),
        (Effect::Grant { close_after_ms: n })@ == EffectView::Grant(n),
        (Effect::ExitProcess { after_ms: n })@ == EffectView::ExitProcess(n),
{
}

} // verus!
