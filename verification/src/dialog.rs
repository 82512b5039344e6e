//! The dialog: what it shows, how it takes in messages, and what it asks to be done.

use vstd::prelude::*;
use vstd::string::*;
use crate::accounts::{current_uid, OwnUid};
use crate::cookies::{take_cancelled, CookieState};
use crate::helper::answer_line;
use crate::message::{AppMessage, AuthResult, MessageView, ResultView};
use crate::request::{outcome_view, GuiRequest};
use crate::simulate::{simulate_allowed, simulated_answer, simulated_verdict, simulation_allowed};
use crate::text::{ascii, ascii_lowered, contains, lowercased, occurs_in};

verus! {

/// Extra helper runs allowed after the first attempt failed. The helper runs one
/// conversation and exits, so a retry means a new process; the bound also keeps a helper
/// that fails instantly from being started in a tight loop.
pub const RETRIES: u32 = 2;

/// How long the simulated authenticator waits before it succeeds by itself.
pub const AUTO_SUCCESS_MS: u64 = 2000;

/// How long the simulated authenticator takes to verify a password.
pub const SIMULATED_PASSWORD_MS: u64 = 800;

/// How long the simulated authenticator takes to scan a finger.
pub const SIMULATED_SCAN_MS: u64 = 1500;

/// How long a granted request's window stays to show its success.
pub const GRANTED_WINDOW_MS: u64 = 800;

/// How long the standalone window stays to show its success.
pub const STANDALONE_EXIT_MS: u64 = 1000;

/// The state of the dialog.
#[derive(Debug)]
pub struct AuthenticatorApp {
    pub password_text: String,
    pub password_label: String,
    pub fingerprint_label: String,
    pub status_msg: String,
    pub status_is_error: bool,
    pub status_is_success: bool,
    pub fingerprint_msg: String,
    pub fingerprint_active: bool,
    pub fingerprint_success: bool,
    /// Whether the fingerprint button does anything if pressed. With a live request it
    /// does not: PAM inside the helper owns the reader.
    pub fingerprint_interactive: bool,
    pub simulate_mode: bool,
    /// Whether a live request of the policy daemon has the window.
    pub polkit_mode: bool,
    /// Whether a helper process is there to take an answer.
    pub helper_open: bool,
    /// Identity and cookie of the live request, kept so that a failed attempt can start a
    /// fresh helper.
    pub username: String,
    pub cookie: String,
    pub retries_left: u32,
}

/// What the dialog asks the program around it to do.
#[derive(Debug, PartialEq, Eq)]
pub enum Effect {
    Nothing,
    /// Start a helper for this user and cookie, and report how that went.
    SpawnHelper { username: String, cookie: String },
    /// Write this line to the helper.
    WriteHelper(String),
    /// Take the helper out of its slot, if it is still there; kill it, and wait for it without
    /// holding anything up.
    KillHelper,
    /// Have PAM check this password of the current user.
    CheckPassword(String),
    /// Scan a finger of the current user.
    ScanFinger,
    /// Listen to the reader on behalf of this user from the start.
    WatchReader(String),
    /// Report this result to the dialog after a while.
    SendLater { delay_ms: u64, result: AuthResult },
    /// Grant the live request, and close the window after a while.
    Grant { close_after_ms: u64 },
    /// End the program after a while.
    ExitProcess { after_ms: u64 },
}

/// What an `AuthenticatorApp` holds, its texts taken as sequences of characters.
#[verifier::ext_equal]
pub struct AppView {
    pub password_text: Seq<char>,
    pub password_label: Seq<char>,
    pub fingerprint_label: Seq<char>,
    pub status_msg: Seq<char>,
    pub status_is_error: bool,
    pub status_is_success: bool,
    pub fingerprint_msg: Seq<char>,
    pub fingerprint_active: bool,
    pub fingerprint_success: bool,
    pub fingerprint_interactive: bool,
    pub simulate_mode: bool,
    pub polkit_mode: bool,
    pub helper_open: bool,
    pub username: Seq<char>,
    pub cookie: Seq<char>,
    pub retries_left: u32,
}

/// An `Effect`, its texts taken as sequences of characters.
#[verifier::ext_equal]
pub enum EffectView {
    Nothing,
    SpawnHelper(Seq<char>, Seq<char>),
    WriteHelper(Seq<char>),
    KillHelper,
    CheckPassword(Seq<char>),
    ScanFinger,
    WatchReader(Seq<char>),
    SendLater(u64, ResultView),
    Grant(u64),
    ExitProcess(u64),
}

impl View for AuthenticatorApp {
    type V = AppView;

    open spec fn view(&self) -> AppView {
        AppView {
            password_text: self.password_text@,
            password_label: self.password_label@,
            fingerprint_label: self.fingerprint_label@,
            status_msg: self.status_msg@,
            status_is_error: self.status_is_error,
            status_is_success: self.status_is_success,
            fingerprint_msg: self.fingerprint_msg@,
            fingerprint_active: self.fingerprint_active,
            fingerprint_success: self.fingerprint_success,
            fingerprint_interactive: self.fingerprint_interactive,
            simulate_mode: self.simulate_mode,
            polkit_mode: self.polkit_mode,
            helper_open: self.helper_open,
            username: self.username@,
            cookie: self.cookie@,
            retries_left: self.retries_left,
        }
    }
}

impl View for Effect {
    type V = EffectView;

    open spec fn view(&self) -> EffectView {
        match self {
            Effect::Nothing => EffectView::Nothing,
            Effect::SpawnHelper { username, cookie } => EffectView::SpawnHelper(username@, cookie@),
            Effect::WriteHelper(line) => EffectView::WriteHelper(line@),
            Effect::KillHelper => EffectView::KillHelper,
            Effect::CheckPassword(password) => EffectView::CheckPassword(password@),
            Effect::ScanFinger => EffectView::ScanFinger,
            Effect::WatchReader(username) => EffectView::WatchReader(username@),
            Effect::SendLater { delay_ms, result } => EffectView::SendLater(*delay_ms, result@),
            Effect::Grant { close_after_ms } => EffectView::Grant(*close_after_ms),
            Effect::ExitProcess { after_ms } => EffectView::ExitProcess(*after_ms),
        }
    }
}

/// The live request that a window opens for, its texts taken as sequences of characters.
pub struct RequestView {
    pub username: Seq<char>,
    pub message: Seq<char>,
    pub cookie: Seq<char>,
}

/// The view of a request that may be there.
pub open spec fn request_view<T>(request: Option<&GuiRequest<T>>) -> Option<RequestView> {
    match request {
        Some(req) => Some(
            RequestView { username: req.username@, message: req.message@, cookie: req.cookie@ },
        ),
        None => None,
    }
}

impl AppView {
    /// What holds of every dialog: a live request never simulates, leaves the reader to
    /// PAM, and alone has a helper, whose restarts are bounded.
    pub open spec fn wf(self) -> bool {
        &&& self.polkit_mode ==> !self.simulate_mode
        &&& self.fingerprint_interactive == !self.polkit_mode
        &&& self.helper_open ==> self.polkit_mode
        &&& self.retries_left <= RETRIES
    }

    /// The dialog as it opens for a request, or standalone where there is none.
    pub open spec fn opened(request: Option<RequestView>, env_requested: bool, uid: u32) -> AppView {
        AppView {
            password_text: seq![],
            password_label: "PASSWORD"@,
            fingerprint_label: if request is Some {
                "Reader"@
            } else {
                "Scan"@
            },
            status_msg: if request is Some {
                request->0.message
            } else {
                "Authenticate using password or fingerprint"@
            },
            status_is_error: false,
            status_is_success: false,
            fingerprint_msg: if request is Some {
                "Handled by PAM — follow the prompt"@
            } else {
                "Fingerprint scanner ready"@
            },
            fingerprint_active: false,
            fingerprint_success: false,
            fingerprint_interactive: request is None,
            simulate_mode: simulation_allowed(request is Some, env_requested, uid),
            polkit_mode: request is Some,
            helper_open: false,
            username: if request is Some {
                request->0.username
            } else {
                seq![]
            },
            cookie: if request is Some {
                request->0.cookie
            } else {
                seq![]
            },
            retries_left: RETRIES,
        }
    }

    /// What a dialog that opens asks for: a helper, if it opens for a request.
    pub open spec fn opening_effect(self) -> EffectView {
        if self.polkit_mode {
            EffectView::SpawnHelper(self.username, self.cookie)
        } else {
            EffectView::Nothing
        }
    }

    /// After the first helper was started, or was not.
    pub open spec fn after_spawn(self, outcome: Result<(), Seq<char>>) -> AppView {
        match outcome {
            Ok(_) => AppView { helper_open: true, ..self },
            Err(error) => AppView { status_msg: "Failed to spawn helper: "@ + error, ..self },
        }
    }

    /// After another helper was started, or was not.
    pub open spec fn after_restart(self, outcome: Result<(), Seq<char>>) -> AppView {
        match outcome {
            Ok(_) => AppView { helper_open: true, ..self },
            Err(error) => AppView { status_msg: "Could not restart helper: "@ + error, ..self },
        }
    }

    /// What the dialog runs by itself is for the current user: it stands alone, and is not
    /// simulated.
    pub open spec fn runs_for_user(self) -> bool {
        !self.simulate_mode && !self.polkit_mode
    }

    /// After the dialog, standing open, started what it runs by itself. `user` is the
    /// current user.
    pub open spec fn started(self, user: Option<Seq<char>>) -> AppView {
        if self.simulate_mode {
            AppView {
                status_msg: "SIMULATION MODE: use password 'password' or click fingerprint"@,
                fingerprint_msg: "Click fingerprint sensor to scan"@,
                ..self
            }
        } else if self.runs_for_user() && user is None {
            AppView { fingerprint_msg: "Cannot determine the current user"@, ..self }
        } else {
            self
        }
    }

    /// What the dialog runs by itself.
    pub open spec fn start_effect(self, user: Option<Seq<char>>) -> EffectView {
        if self.simulate_mode {
            EffectView::SendLater(AUTO_SUCCESS_MS, ResultView::Success)
        } else if self.runs_for_user() && user is Some {
            EffectView::WatchReader(user->0)
        } else {
            EffectView::Nothing
        }
    }

    /// After a message of the authentication stack. `lowered` is its text in lowercase. One
    /// that speaks of a finger shows that the reader is waiting.
    pub open spec fn after_status(self, msg: Seq<char>, is_error: bool, lowered: Seq<char>) -> AppView {
        let told = AppView {
            status_msg: msg,
            status_is_error: is_error,
            status_is_success: false,
            ..self
        };
        if occurs_in("finger"@, lowered) {
            AppView { fingerprint_active: true, fingerprint_msg: "Waiting for finger…"@, ..told }
        } else {
            told
        }
    }

    /// After the user asked for the password to be verified. With a live request it goes to
    /// the helper or nowhere; the box is emptied where it went there.
    pub open spec fn after_verify(self) -> AppView {
        if self.status_is_success {
            self
        } else if self.polkit_mode && self.helper_open {
            AppView {
                status_msg: "Verifying password..."@,
                status_is_error: false,
                password_text: seq![],
                ..self
            }
        } else if self.polkit_mode {
            AppView {
                status_msg: "No authentication helper — press Escape to cancel"@,
                status_is_error: true,
                ..self
            }
        } else {
            AppView { status_msg: "Verifying password..."@, status_is_error: false, ..self }
        }
    }

    /// Who verifies the password that the user asked to be verified.
    pub open spec fn verify_effect(self) -> EffectView {
        if self.status_is_success {
            EffectView::Nothing
        } else if self.polkit_mode && self.helper_open {
            EffectView::WriteHelper(self.password_text + "\n"@)
        } else if self.polkit_mode {
            EffectView::Nothing
        } else if self.simulate_mode {
            EffectView::SendLater(SIMULATED_PASSWORD_MS, simulated_answer(self.password_text))
        } else {
            EffectView::CheckPassword(self.password_text)
        }
    }

    /// The fingerprint button does something now.
    pub open spec fn may_scan(self) -> bool {
        !self.fingerprint_success && !self.status_is_success && !self.polkit_mode
    }

    /// After the user asked for a scan.
    pub open spec fn after_scan_start(self) -> AppView {
        if self.may_scan() {
            AppView {
                fingerprint_active: true,
                fingerprint_msg: "Place finger on reader..."@,
                ..self
            }
        } else {
            self
        }
    }

    /// Who scans the finger.
    pub open spec fn scan_effect(self) -> EffectView {
        if !self.may_scan() {
            EffectView::Nothing
        } else if self.simulate_mode {
            EffectView::SendLater(SIMULATED_SCAN_MS, ResultView::Success)
        } else {
            EffectView::ScanFinger
        }
    }

    /// After an attempt succeeded.
    pub open spec fn after_success(self) -> AppView {
        AppView {
            status_is_success: true,
            status_is_error: false,
            fingerprint_success: true,
            fingerprint_active: false,
            status_msg: "Authentication Successful!"@,
            fingerprint_msg: "Authenticated"@,
            ..self
        }
    }

    /// After an attempt failed. With a live request the helper has exited: it is given up,
    /// and another one takes its place as long as retries are left.
    pub open spec fn after_failure(self, error: Seq<char>) -> AppView {
        let told = AppView { status_is_error: true, status_msg: error, ..self };
        if !self.polkit_mode {
            told
        } else if self.retries_left == 0 {
            AppView {
                helper_open: false,
                password_text: seq![],
                status_msg: error + " — press Escape to cancel"@,
                ..told
            }
        } else {
            AppView {
                helper_open: false,
                password_text: seq![],
                retries_left: (self.retries_left - 1) as u32,
                ..told
            }
        }
    }

    /// What a failed attempt asks for.
    pub open spec fn failure_effect(self) -> EffectView {
        if self.polkit_mode && self.retries_left > 0 {
            EffectView::SpawnHelper(self.username, self.cookie)
        } else {
            EffectView::Nothing
        }
    }

    /// After news of the reader. Standalone, a missing reader turns simulation on.
    pub open spec fn after_reader_news(self, status: Seq<char>) -> AppView {
        AppView {
            simulate_mode: self.simulate_mode || (!self.polkit_mode && (occurs_in(
                "Simulation mode active"@,
                status,
            ) || occurs_in("No reader"@, status))),
            fingerprint_msg: status,
            ..self
        }
    }

    /// After a message.
    pub open spec fn after(self, msg: MessageView) -> AppView {
        match msg {
            MessageView::PasswordVerify => self.after_verify(),
            MessageView::FingerprintScanStart => self.after_scan_start(),
            MessageView::Cancel => self,
            MessageView::PromptReceived(prompt, _) => AppView {
                password_label: prompt,
                password_text: seq![],
                ..self
            },
            MessageView::StatusReceived(text, is_error) => self.after_status(
                text,
                is_error,
                lowercased(text),
            ),
            MessageView::AuthDone(ResultView::Success) => self.after_success(),
            MessageView::AuthDone(ResultView::ExitWindow) => self,
            MessageView::AuthDone(ResultView::Failure(error)) => self.after_failure(error),
            MessageView::AuthDone(ResultView::FingerprintStatus(status)) => self.after_reader_news(
                status,
            ),
        }
    }

    /// What a message makes the dialog ask for.
    pub open spec fn effect(self, msg: MessageView) -> EffectView {
        match msg {
            MessageView::PasswordVerify => self.verify_effect(),
            MessageView::FingerprintScanStart => self.scan_effect(),
            MessageView::Cancel => if self.helper_open {
                EffectView::KillHelper
            } else {
                EffectView::Nothing
            },
            MessageView::AuthDone(ResultView::Success) => if self.polkit_mode {
                EffectView::Grant(GRANTED_WINDOW_MS)
            } else {
                EffectView::ExitProcess(STANDALONE_EXIT_MS)
            },
            MessageView::AuthDone(ResultView::Failure(_)) => self.failure_effect(),
            _ => EffectView::Nothing,
        }
    }
}

/// A message that closes the window.
pub open spec fn closes(msg: MessageView) -> bool {
    msg == MessageView::Cancel || msg == MessageView::AuthDone(ResultView::ExitWindow)
}

impl AuthenticatorApp {
    /// Opens the dialog as user `uid`: for a request, or standalone where there is none.
    /// `env_requested` tells whether the environment asks for simulation.
    pub fn opened<T>(request: Option<&GuiRequest<T>>, env_requested: bool, uid: u32) -> (r: (
        AuthenticatorApp,
        Effect,
    ))
        ensures
            r.0@ == AppView::opened(request_view(request), env_requested, uid),
            r.0@.wf(),
            r.1@ == r.0@.opening_effect(),
    {
        let simulate_mode: bool = simulate_allowed(request.is_some(), env_requested, uid);
        match request {
            Some(req) => {
                let app = AuthenticatorApp {
                    password_text: String::new(),
                    password_label: "PASSWORD".to_owned(),
                    fingerprint_label: "Reader".to_owned(),
                    status_msg: req.message.clone(),
                    status_is_error: false,
                    status_is_success: false,
                    fingerprint_msg: "Handled by PAM — follow the prompt".to_owned(),
                    fingerprint_active: false,
                    fingerprint_success: false,
                    fingerprint_interactive: false,
                    simulate_mode,
                    polkit_mode: true,
                    helper_open: false,
                    username: req.username.clone(),
                    cookie: req.cookie.clone(),
                    retries_left: RETRIES,
                };
                let effect = app.spawn_helper();
                (app, effect)
            },
            None => (
                AuthenticatorApp {
                    password_text: String::new(),
                    password_label: "PASSWORD".to_owned(),
                    fingerprint_label: "Scan".to_owned(),
                    status_msg: "Authenticate using password or fingerprint".to_owned(),
                    status_is_error: false,
                    status_is_success: false,
                    fingerprint_msg: "Fingerprint scanner ready".to_owned(),
                    fingerprint_active: false,
                    fingerprint_success: false,
                    fingerprint_interactive: true,
                    simulate_mode,
                    polkit_mode: false,
                    helper_open: false,
                    username: String::new(),
                    cookie: String::new(),
                    retries_left: RETRIES,
                },
                Effect::Nothing,
            ),
        }
    }

    /// Opens the dialog as the user who runs the process, and tells who that is.
    pub fn new<T>(request: Option<&GuiRequest<T>>, env_requested: bool) -> (r: (
        AuthenticatorApp,
        Effect,
        OwnUid,
    ))
        ensures
            r.0@ == AppView::opened(request_view(request), env_requested, r.2@),
            request is Some || env_requested ==> r.0@ == AppView::opened(
                request_view(request),
                env_requested,
                0,
            ),
            r.0@.wf(),
            r.1@ == r.0@.opening_effect(),
    {
        let own: OwnUid = current_uid();
        let (app, effect) = Self::opened(request, env_requested, own.uid());
        (app, effect, own)
    }

    /// A helper for the live request.
    fn spawn_helper(&self) -> (effect: Effect)
        ensures
            effect@ == EffectView::SpawnHelper(self.username@, self.cookie@),
    {
        Effect::SpawnHelper { username: self.username.clone(), cookie: self.cookie.clone() }
    }

    /// Takes in how the start of the first helper went.
    pub fn helper_spawned(&mut self, outcome: Result<(), String>)
        ensures
            final(self)@ == old(self)@.after_spawn(outcome_view(outcome)),
            old(self)@.wf() && old(self)@.polkit_mode ==> final(self)@.wf(),
    {
        match outcome {
            Ok(_) => {
                self.helper_open = true;
            },
            Err(error) => {
                self.status_msg = "Failed to spawn helper: ".to_owned().concat(error.as_str());
            },
        }
    }

    /// Takes in how the start of another helper went.
    pub fn helper_restarted(&mut self, outcome: Result<(), String>)
        ensures
            final(self)@ == old(self)@.after_restart(outcome_view(outcome)),
            old(self)@.wf() && old(self)@.polkit_mode ==> final(self)@.wf(),
    {
        match outcome {
            Ok(_) => {
                self.helper_open = true;
            },
            Err(error) => {
                self.status_msg = "Could not restart helper: ".to_owned().concat(error.as_str());
            },
        }
    }

    /// Claims a cancellation that landed while this window was starting, before there was
    /// anyone to deliver it to.
    pub fn claim_early_cancel(&self, cookies: &mut CookieState) -> (cancelled: bool)
        ensures
            cancelled == (self@.polkit_mode && old(cookies)@.is_cancelled(self@.cookie)),
            self@.polkit_mode ==> final(cookies)@ == old(cookies)@.taken(self@.cookie),
            !self@.polkit_mode ==> *final(cookies) == *old(cookies),
            old(cookies)@.wf() ==> final(cookies)@.wf(),
    {
        self.polkit_mode && take_cancelled(cookies, self.cookie.as_str())
    }

    /// Whether `start` needs to know the current user. Where it does not, nobody is asked.
    pub fn needs_user(&self) -> (needed: bool)
        ensures
            needed == self@.runs_for_user(),
    {
        !self.simulate_mode && !self.polkit_mode
    }

    /// Starts what the dialog runs by itself: the simulated success, or, standalone, the
    /// reader on behalf of the current user `user`.
    pub fn start(&mut self, user: Option<String>) -> (effect: Effect)
        ensures
            final(self)@ == old(self)@.started(user.deep_view()),
            old(self)@.wf() ==> final(self)@.wf(),
            effect@ == old(self)@.start_effect(user.deep_view()),
    {
        if self.simulate_mode {
            self.status_msg = "SIMULATION MODE: use password 'password' or click fingerprint".to_owned();
            self.fingerprint_msg = "Click fingerprint sensor to scan".to_owned();
            Effect::SendLater { delay_ms: AUTO_SUCCESS_MS, result: AuthResult::Success }
        } else if self.needs_user() {
            match user {
                Some(username) => Effect::WatchReader(username),
                None => {
                    self.fingerprint_msg = "Cannot determine the current user".to_owned();
                    Effect::Nothing
                },
            }
        } else {
            Effect::Nothing
        }
    }

    /// Takes in a message of the authentication stack, whose text in lowercase is `lowered`.
    pub fn status_received(&mut self, msg: String, is_error: bool, lowered: &str)
        ensures
            final(self)@ == old(self)@.after_status(msg@, is_error, lowered@),
            old(self)@.wf() ==> final(self)@.wf(),
    {
        self.status_msg = msg;
        self.status_is_error = is_error;
        self.status_is_success = false;
        if contains(lowered, "finger") {
            self.fingerprint_active = true;
            self.fingerprint_msg = "Waiting for finger…".to_owned();
        }
    }

    fn verify_password(&mut self) -> (effect: Effect)
        ensures
            final(self)@ == old(self)@.after_verify(),
            effect@ == old(self)@.verify_effect(),
    {
        if self.status_is_success {
            return Effect::Nothing;
        }
        let password: String = self.password_text.clone();
        self.status_msg = "Verifying password...".to_owned();
        self.status_is_error = false;
        if self.polkit_mode {
            if self.helper_open {
                self.password_text = String::new();
                Effect::WriteHelper(answer_line(password.as_str()))
            } else {
                self.status_msg = "No authentication helper — press Escape to cancel".to_owned();
                self.status_is_error = true;
                Effect::Nothing
            }
        } else if self.simulate_mode {
            Effect::SendLater {
                delay_ms: SIMULATED_PASSWORD_MS,
                result: simulated_verdict(password.as_str()),
            }
        } else {
            Effect::CheckPassword(password)
        }
    }

    fn start_scan(&mut self) -> (effect: Effect)
        ensures
            final(self)@ == old(self)@.after_scan_start(),
            effect@ == old(self)@.scan_effect(),
    {
        if self.fingerprint_success || self.status_is_success || self.polkit_mode {
            return Effect::Nothing;
        }
        self.fingerprint_active = true;
        self.fingerprint_msg = "Place finger on reader...".to_owned();
        if self.simulate_mode {
            Effect::SendLater { delay_ms: SIMULATED_SCAN_MS, result: AuthResult::Success }
        } else {
            Effect::ScanFinger
        }
    }

    fn succeed(&mut self) -> (effect: Effect)
        ensures
            final(self)@ == old(self)@.after_success(),
            effect@ == old(self)@.effect(MessageView::AuthDone(ResultView::Success)),
    {
        self.status_is_success = true;
        self.status_is_error = false;
        self.fingerprint_success = true;
        self.fingerprint_active = false;
        self.status_msg = "Authentication Successful!".to_owned();
        self.fingerprint_msg = "Authenticated".to_owned();
        if self.polkit_mode {
            Effect::Grant { close_after_ms: GRANTED_WINDOW_MS }
        } else {
            Effect::ExitProcess { after_ms: STANDALONE_EXIT_MS }
        }
    }

    fn fail(&mut self, error: String) -> (effect: Effect)
        ensures
            final(self)@ == old(self)@.after_failure(error@),
            effect@ == old(self)@.failure_effect(),
    {
        self.status_is_error = true;
        if !self.polkit_mode {
            self.status_msg = error;
            return Effect::Nothing;
        }
        self.helper_open = false;
        self.password_text = String::new();
        if self.retries_left == 0 {
            self.status_msg = error.concat(" — press Escape to cancel");
            Effect::Nothing
        } else {
            self.status_msg = error;
            self.retries_left -= 1;
            self.spawn_helper()
        }
    }

    fn reader_news(&mut self, status: String)
        ensures
            final(self)@ == old(self)@.after_reader_news(status@),
    {
        if !self.polkit_mode && (contains(status.as_str(), "Simulation mode active") || contains(
            status.as_str(),
            "No reader",
        )) {
            self.simulate_mode = true;
        }
        self.fingerprint_msg = status;
    }

    /// Takes in a message: changes the dialog, asks for a repaint, says whether the window
    /// is to close, and gives what is to be done.
    ///
    /// With a live request the password is answered through the helper or not at all, never
    /// through the local or the simulated way, which can report success on its own.
    pub fn update(
        &mut self,
        msg: AppMessage,
        needs_rebuild: &mut bool,
        exit: &mut bool,
    ) -> (effect: Effect)
        ensures
            final(self)@ == old(self)@.after(msg@),
            old(self)@.wf() ==> final(self)@.wf(),
            effect@ == old(self)@.effect(msg@),
            *final(needs_rebuild),
            *final(exit) == (*old(exit) || closes(msg@)),
            msg@ matches MessageView::StatusReceived(text, is_error) ==> (ascii(text)
                ==> final(self)@ == old(self)@.after_status(text, is_error, ascii_lowered(text))),
    {
        *needs_rebuild = true;
        match msg {
            AppMessage::PasswordVerify => self.verify_password(),
            AppMessage::FingerprintScanStart => self.start_scan(),
            AppMessage::Cancel => {
                *exit = true;
                if self.helper_open {
                    Effect::KillHelper
                } else {
                    Effect::Nothing
                }
            },
            AppMessage::PromptReceived(prompt, _echo) => {
                self.password_label = prompt;
                self.password_text = String::new();
                Effect::Nothing
            },
            AppMessage::StatusReceived(text, is_error) => {
                let lowered: String = text.as_str().to_lowercase();
                self.status_received(text, is_error, lowered.as_str());
                Effect::Nothing
            },
            AppMessage::AuthDone(result) => match result {
                AuthResult::Success => self.succeed(),
                AuthResult::ExitWindow => {
                    *exit = true;
                    Effect::Nothing
                },
                AuthResult::Failure(error) => self.fail(error),
                AuthResult::FingerprintStatus(status) => {
                    self.reader_news(status);
                    Effect::Nothing
                },
            },
        }
    }
}

} // verus!
