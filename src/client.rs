//! The client's orchestration state machine. Each user action, completion
//! and timer tick is one method: it updates the state and returns the
//! effects (requests to send, a file to read, the session to persist, the
//! poll timer to arm or cancel) that the embedding application performs and
//! reports back on.
use vstd::prelude::*;
use crate::api::{
    build_config_request, build_create_report_request, build_login_request,
    build_logout_request, build_profiles_request, build_register_request,
    build_tasks_request, config_request, create_report_request, login_request, logout_request,
    profiles_request, register_request, tasks_request, Request, RequestView,
};
use crate::model::{
    AuthResponse, Config, CreateResponse, Credentials, CredentialsField, FetchFailure, Profile,
    ProfilesResponse, Session,
};
use crate::profiles::{comma_joined, machine_names, toggled, ProfileSelection};
use crate::tasks::{all_settled, has_pending, profile_status, profile_status_text, Task, TasksResponse};

verus! {

/// The period of the task poll timer, in milliseconds.
pub const POLL_PERIOD_MS: u64 = 1000;

/// The screen shown.
#[derive(Clone, Copy, PartialEq, Eq, Structural, Debug)]
pub enum Scene {
    Loading,
    LoginRegister,
    FetchConfigError,
    LoggedIn,
}

/// Where one request-backed operation stands. `InFlight` holds the tag of the
/// outstanding request; a completion with another tag is stale and ignored.
#[derive(Clone, Copy, PartialEq, Eq, Structural, Debug)]
pub enum Phase {
    Idle,
    InFlight(u64),
    Done,
    Failed,
}

/// Where the upload of a file stands.
#[derive(Clone, Copy, PartialEq, Eq, Structural, Debug)]
pub enum Upload {
    Idle,
    Reading,
    Sending(u64),
    Failed,
}

/// Where the tracking of a report's tasks stands. `fetch` is the tag of the
/// outstanding task listing, if any.
#[derive(Clone, Copy, PartialEq, Eq, Structural, Debug)]
pub enum Poller {
    Idle,
    Polling { report_id: i64, fetch: Option<u64> },
    Stopped { report_id: i64 },
}

/// What the embedding application is asked to do.
pub enum Effect {
    /// Send the request and report its completion with its tag.
    Send(Request),
    /// Read the selected file in full and report its content.
    ReadFile,
    /// Store the session so that it survives a restart.
    Persist(Session),
    /// Arm (or re-arm) the repeating poll timer.
    StartPolling { report_id: i64, period_ms: u64 },
    /// Cancel the poll timer.
    StopPolling,
}

pub enum EffectView {
    Send(RequestView),
    ReadFile,
    Persist(Option<Seq<char>>),
    StartPolling { report_id: i64, period_ms: u64 },
    StopPolling,
}

impl View for Effect {
    type V = EffectView;

    open spec fn view(&self) -> EffectView {
        match self {
            Effect::Send(r) => EffectView::Send(r@),
            Effect::ReadFile => EffectView::ReadFile,
            Effect::Persist(s) => EffectView::Persist(optional_text(s.token)),
            Effect::StartPolling { report_id, period_ms } => EffectView::StartPolling {
                report_id: *report_id,
                period_ms: *period_ms,
            },
            Effect::StopPolling => EffectView::StopPolling,
        }
    }
}

pub open spec fn optional_text(t: Option<String>) -> Option<Seq<char>> {
    match t {
        Some(s) => Some(s@),
        None => None,
    }
}

pub open spec fn effects_view(e: Seq<Effect>) -> Seq<EffectView> {
    e.map_values(|x: Effect| x@)
}

/// The tag after `t`.
pub open spec fn next_tag(t: u64) -> u64 {
    if t == u64::MAX {
        0
    } else {
        (t + 1) as u64
    }
}

/// The machine names of the profiles fetched last (none before any fetch).
pub open spec fn known_names(profiles: Option<Vec<Profile>>) -> Set<Seq<char>> {
    match profiles {
        Some(v) => machine_names(v@).to_set(),
        None => Set::empty(),
    }
}

/// The whole client state.
pub struct Client {
    pub config: Option<Config>,
    pub session: Session,
    pub scene: Scene,
    pub form: Credentials,
    pub config_fetch: Phase,
    pub login: Phase,
    pub register: Phase,
    pub logout: Phase,
    pub profiles_fetch: Phase,
    pub profiles: Option<Vec<Profile>>,
    pub enabled: ProfileSelection,
    pub upload: Upload,
    pub poller: Poller,
    pub tasks: Option<Vec<Task>>,
    pub tasks_error: bool,
    /// The tag that the next request gets.
    pub issued: u64,
}

impl Client {
    /// Every enabled profile is one of the profiles fetched last, and the
    /// logged-in screen has a profile list to show.
    pub open spec fn wf(&self) -> bool {
        &&& self.enabled.wf()
        &&& self.enabled@.subset_of(known_names(self.profiles))
        &&& (self.scene == Scene::LoggedIn ==> self.profiles.is_some())
        &&& (self.login is InFlight || self.register is InFlight ==> self.config.is_some())
        &&& !(self.login is InFlight && self.register is InFlight)
        &&& (self.logout is InFlight ==> self.config.is_some())
        &&& (self.upload is Sending ==> self.config.is_some())
    }

    /// A file is being read or uploaded: the file control is disabled.
    pub open spec fn uploading(&self) -> bool {
        self.upload is Reading || self.upload is Sending
    }

    /// Both the configuration and a token are held, so authorized requests
    /// can be sent.
    pub open spec fn authorized(&self) -> bool {
        self.config.is_some() && self.session.token.is_some()
    }

    /// A login or a registration is outstanding: both controls are disabled.
    pub open spec fn auth_busy(&self) -> bool {
        self.login is InFlight || self.register is InFlight
    }

    /// A client that starts with the restored `session`, before anything was
    /// fetched.
    pub fn new(session: Session) -> (r: Client)
        ensures
            r.wf(),
            r.session == session,
            r.config.is_none(),
            r.scene == Scene::Loading,
            r.form.username@.len() == 0 && r.form.password@.len() == 0,
            r.config_fetch == Phase::Idle && r.login == Phase::Idle && r.register == Phase::Idle,
            r.logout == Phase::Idle && r.profiles_fetch == Phase::Idle,
            r.profiles.is_none(),
            r.enabled@ == Set::<Seq<char>>::empty(),
            r.upload == Upload::Idle,
            r.poller == Poller::Idle,
            r.tasks.is_none(),
            !r.tasks_error,
            r.issued == 0,
    {
        Client {
            config: None,
            session,
            scene: Scene::Loading,
            form: Credentials { username: String::new(), password: String::new() },
            config_fetch: Phase::Idle,
            login: Phase::Idle,
            register: Phase::Idle,
            logout: Phase::Idle,
            profiles_fetch: Phase::Idle,
            profiles: None,
            enabled: ProfileSelection::new(),
            upload: Upload::Idle,
            poller: Poller::Idle,
            tasks: None,
            tasks_error: false,
            issued: 0,
        }
    }

    fn take_tag(&mut self) -> (t: u64)
        ensures
            t == old(self).issued,
            *final(self) == (Client { issued: next_tag(old(self).issued), ..*old(self) }),
    {
        let t = self.issued;
        self.issued = if t == u64::MAX { 0 } else { t + 1 };
        t
    }

    /// Fetches the configuration (superseding an earlier fetch).
    pub fn start(&mut self) -> (r: Vec<Effect>)
        requires
            old(self).wf(),
        ensures
            final(self).wf(),
            *final(self) == (Client {
                config_fetch: Phase::InFlight(old(self).issued),
                issued: next_tag(old(self).issued),
                ..*old(self)
            }),
            effects_view(r@) == seq![EffectView::Send(config_request(old(self).issued))],
    {
        let tag = self.take_tag();
        self.config_fetch = Phase::InFlight(tag);
        let r = vec![Effect::Send(build_config_request(tag))];
        assert(effects_view(r@) =~= seq![EffectView::Send(config_request(tag))]);
        r
    }

    /// The API base URL, once the configuration is loaded.
    pub open spec fn api_url(&self) -> Seq<char> {
        self.config->Some_0.api_url@
    }

    /// The session token, while logged in.
    pub open spec fn token(&self) -> Seq<char> {
        self.session.token->Some_0@
    }

    fn fetch_profiles(&mut self) -> (r: Effect)
        requires
            old(self).config.is_some(),
            old(self).session.token.is_some(),
        ensures
            *final(self) == (Client {
                profiles_fetch: Phase::InFlight(old(self).issued),
                issued: next_tag(old(self).issued),
                ..*old(self)
            }),
            r@ == EffectView::Send(profiles_request(old(self).issued, old(self).api_url(), old(self).token())),
    {
        let tag = self.take_tag();
        self.profiles_fetch = Phase::InFlight(tag);
        let api_url = &self.config.as_ref().unwrap().api_url;
        let token = self.session.token.as_ref().unwrap();
        Effect::Send(build_profiles_request(tag, api_url, token))
    }

    /// Takes the outcome of the configuration fetch tagged `tag`. With a
    /// stored token the profiles are fetched next; without one the login
    /// screen is shown.
    pub fn on_config(&mut self, tag: u64, result: Result<Config, FetchFailure>) -> (r: Vec<Effect>)
        requires
            old(self).wf(),
        ensures
            final(self).wf(),
            old(self).config_fetch != Phase::InFlight(tag) ==> *final(self) == *old(self) && r@.len() == 0,
            old(self).config_fetch == Phase::InFlight(tag) ==> match result {
                Ok(c) => match old(self).session.token {
                    Some(t) => {
                        &&& *final(self) == (Client {
                            config: Some(c),
                            config_fetch: Phase::Done,
                            scene: Scene::Loading,
                            profiles_fetch: Phase::InFlight(old(self).issued),
                            issued: next_tag(old(self).issued),
                            ..*old(self)
                        })
                        &&& effects_view(r@) == seq![EffectView::Send(profiles_request(old(self).issued, c.api_url@, t@))]
                    },
                    None => {
                        &&& *final(self) == (Client {
                            config: Some(c),
                            config_fetch: Phase::Done,
                            scene: Scene::LoginRegister,
                            ..*old(self)
                        })
                        &&& r@.len() == 0
                    },
                },
                Err(_) => {
                    &&& *final(self) == (Client {
                        config_fetch: Phase::Failed,
                        scene: Scene::FetchConfigError,
                        ..*old(self)
                    })
                    &&& r@.len() == 0
                },
            },
    {
        if self.config_fetch != Phase::InFlight(tag) {
            return Vec::new();
        }
        match result {
            Ok(c) => {
                self.config = Some(c);
                self.config_fetch = Phase::Done;
                if self.session.token.is_some() {
                    self.scene = Scene::Loading;
                    let e = self.fetch_profiles();
                    let r = vec![e];
                    assert(effects_view(r@) =~= seq![e@]);
                    r
                } else {
                    self.scene = Scene::LoginRegister;
                    Vec::new()
                }
            },
            Err(_) => {
                self.config_fetch = Phase::Failed;
                self.scene = Scene::FetchConfigError;
                Vec::new()
            },
        }
    }

    /// Records what the user typed into one field of the login / register
    /// form.
    pub fn set_field(&mut self, field: CredentialsField, value: String)
        requires
            old(self).wf(),
        ensures
            final(self).wf(),
            *final(self) == (Client {
                form: match field {
                    CredentialsField::Username => Credentials { username: value, ..old(self).form },
                    CredentialsField::Password => Credentials { password: value, ..old(self).form },
                },
                ..*old(self)
            }),
    {
        match field {
            CredentialsField::Username => self.form.username = value,
            CredentialsField::Password => self.form.password = value,
        }
    }

    /// Logs in with the form's credentials, once the configuration is loaded
    /// and while neither a login nor a registration is outstanding. Clears
    /// the previous login / register error.
    pub fn login(&mut self) -> (r: Vec<Effect>)
        requires
            old(self).wf(),
        ensures
            final(self).wf(),
            old(self).config.is_none() || old(self).auth_busy() ==> *final(self) == *old(self) && r@.len() == 0,
            old(self).config.is_some() && !old(self).auth_busy() ==> {
                &&& *final(self) == (Client {
                    login: Phase::InFlight(old(self).issued),
                    register: Phase::Idle,
                    issued: next_tag(old(self).issued),
                    ..*old(self)
                })
                &&& effects_view(r@) == seq![EffectView::Send(login_request(old(self).issued, old(self).api_url(),
                    old(self).form.username@, old(self).form.password@))]
            },
    {
        if self.config.is_none() || self.login.is_in_flight() || self.register.is_in_flight() {
            return Vec::new();
        }
        let tag = self.take_tag();
        self.login = Phase::InFlight(tag);
        self.register = Phase::Idle;
        let req = build_login_request(tag, &self.config.as_ref().unwrap().api_url, &self.form);
        let r = vec![Effect::Send(req)];
        assert(effects_view(r@) =~= seq![EffectView::Send(req@)]);
        r
    }

    /// Registers with the form's credentials, under the same conditions as
    /// `login`.
    pub fn register(&mut self) -> (r: Vec<Effect>)
        requires
            old(self).wf(),
        ensures
            final(self).wf(),
            old(self).config.is_none() || old(self).auth_busy() ==> *final(self) == *old(self) && r@.len() == 0,
            old(self).config.is_some() && !old(self).auth_busy() ==> {
                &&& *final(self) == (Client {
                    register: Phase::InFlight(old(self).issued),
                    login: Phase::Idle,
                    issued: next_tag(old(self).issued),
                    ..*old(self)
                })
                &&& effects_view(r@) == seq![EffectView::Send(register_request(old(self).issued, old(self).api_url(),
                    old(self).form.username@, old(self).form.password@))]
            },
    {
        if self.config.is_none() || self.login.is_in_flight() || self.register.is_in_flight() {
            return Vec::new();
        }
        let tag = self.take_tag();
        self.register = Phase::InFlight(tag);
        self.login = Phase::Idle;
        let req = build_register_request(tag, &self.config.as_ref().unwrap().api_url, &self.form);
        let r = vec![Effect::Send(req)];
        assert(effects_view(r@) =~= seq![EffectView::Send(req@)]);
        r
    }

    /// Stores `token` as the session, asks for it to be persisted and fetches
    /// the profiles.
    fn start_session(&mut self, token: String) -> (r: Vec<Effect>)
        requires
            old(self).wf(),
            old(self).config.is_some(),
        ensures
            *final(self) == (Client {
                session: Session { token: Some(token) },
                profiles_fetch: Phase::InFlight(old(self).issued),
                issued: next_tag(old(self).issued),
                ..*old(self)
            }),
            effects_view(r@) == seq![
                EffectView::Persist(Some(token@)),
                EffectView::Send(profiles_request(old(self).issued, old(self).api_url(), token@)),
            ],
    {
        let stored = Effect::Persist(Session { token: Some(token.clone()) });
        self.session.token = Some(token);
        let fetch = self.fetch_profiles();
        let r = vec![stored, fetch];
        assert(effects_view(r@) =~= seq![stored@, fetch@]);
        r
    }

    /// Takes the outcome of the login tagged `tag`. A success that carries a
    /// token starts the session; any other outcome is a login error.
    pub fn on_login(&mut self, tag: u64, result: Result<AuthResponse, FetchFailure>) -> (r: Vec<Effect>)
        requires
            old(self).wf(),
        ensures
            final(self).wf(),
            old(self).login != Phase::InFlight(tag) ==> *final(self) == *old(self) && r@.len() == 0,
            old(self).login == Phase::InFlight(tag) ==> !final(self).auth_busy(),
            old(self).login == Phase::InFlight(tag) ==> match result {
                Ok(AuthResponse { token: Some(t) }) => {
                    &&& *final(self) == (Client {
                        session: Session { token: Some(t) },
                        login: Phase::Done,
                        profiles_fetch: Phase::InFlight(old(self).issued),
                        issued: next_tag(old(self).issued),
                        ..*old(self)
                    })
                    &&& effects_view(r@) == seq![
                        EffectView::Persist(Some(t@)),
                        EffectView::Send(profiles_request(old(self).issued, old(self).api_url(), t@)),
                    ]
                },
                _ => *final(self) == (Client { login: Phase::Failed, ..*old(self) }) && r@.len() == 0,
            },
    {
        if self.login != Phase::InFlight(tag) {
            return Vec::new();
        }
        match result {
            Ok(AuthResponse { token: Some(t) }) => {
                self.login = Phase::Done;
                self.start_session(t)
            },
            _ => {
                self.login = Phase::Failed;
                Vec::new()
            },
        }
    }

    /// Takes the outcome of the registration tagged `tag`, as `on_login`
    /// does for a login.
    pub fn on_register(&mut self, tag: u64, result: Result<AuthResponse, FetchFailure>) -> (r: Vec<Effect>)
        requires
            old(self).wf(),
        ensures
            final(self).wf(),
            old(self).register != Phase::InFlight(tag) ==> *final(self) == *old(self) && r@.len() == 0,
            old(self).register == Phase::InFlight(tag) ==> !final(self).auth_busy(),
            old(self).register == Phase::InFlight(tag) ==> match result {
                Ok(AuthResponse { token: Some(t) }) => {
                    &&& *final(self) == (Client {
                        session: Session { token: Some(t) },
                        register: Phase::Done,
                        profiles_fetch: Phase::InFlight(old(self).issued),
                        issued: next_tag(old(self).issued),
                        ..*old(self)
                    })
                    &&& effects_view(r@) == seq![
                        EffectView::Persist(Some(t@)),
                        EffectView::Send(profiles_request(old(self).issued, old(self).api_url(), t@)),
                    ]
                },
                _ => *final(self) == (Client { register: Phase::Failed, ..*old(self) }) && r@.len() == 0,
            },
    {
        if self.register != Phase::InFlight(tag) {
            return Vec::new();
        }
        match result {
            Ok(AuthResponse { token: Some(t) }) => {
                self.register = Phase::Done;
                self.start_session(t)
            },
            _ => {
                self.register = Phase::Failed;
                Vec::new()
            },
        }
    }

    /// Ends the session on the service, while a token is held and no logout
    /// is outstanding. Clears the previous logout error.
    pub fn logout(&mut self) -> (r: Vec<Effect>)
        requires
            old(self).wf(),
        ensures
            final(self).wf(),
            old(self).config.is_none() || old(self).session.token.is_none() || old(self).logout is InFlight
                ==> *final(self) == *old(self) && r@.len() == 0,
            old(self).config.is_some() && old(self).session.token.is_some() && !(old(self).logout is InFlight)
                ==> {
                &&& *final(self) == (Client {
                    logout: Phase::InFlight(old(self).issued),
                    issued: next_tag(old(self).issued),
                    ..*old(self)
                })
                &&& effects_view(r@) == seq![EffectView::Send(logout_request(old(self).issued, old(self).api_url(),
                    old(self).token()))]
            },
    {
        if self.config.is_none() || self.session.token.is_none() || self.logout.is_in_flight() {
            return Vec::new();
        }
        let tag = self.take_tag();
        self.logout = Phase::InFlight(tag);
        let req = build_logout_request(tag, &self.config.as_ref().unwrap().api_url,
            self.session.token.as_ref().unwrap());
        let r = vec![Effect::Send(req)];
        assert(effects_view(r@) =~= seq![EffectView::Send(req@)]);
        r
    }

    /// Takes the outcome of the logout tagged `tag`. On success the token is
    /// dropped, the emptied session persisted and the login screen shown
    /// without an error; on failure the token is kept and a logout error
    /// recorded.
    pub fn on_logout(&mut self, tag: u64, result: Result<(), FetchFailure>) -> (r: Vec<Effect>)
        requires
            old(self).wf(),
        ensures
            final(self).wf(),
            old(self).logout != Phase::InFlight(tag) ==> *final(self) == *old(self) && r@.len() == 0,
            old(self).logout == Phase::InFlight(tag) ==> match result {
                Ok(_) => {
                    &&& *final(self) == (Client {
                        session: Session { token: None },
                        logout: Phase::Done,
                        login: Phase::Idle,
                        register: Phase::Idle,
                        scene: Scene::LoginRegister,
                        ..*old(self)
                    })
                    &&& effects_view(r@) == seq![EffectView::Persist(None)]
                },
                Err(_) => *final(self) == (Client { logout: Phase::Failed, ..*old(self) }) && r@.len() == 0,
            },
            old(self).logout == Phase::InFlight(tag) && result is Err ==> final(self).session.token
                == old(self).session.token,
    {
        if self.logout != Phase::InFlight(tag) {
            return Vec::new();
        }
        match result {
            Ok(_) => {
                self.session.token = None;
                self.logout = Phase::Done;
                self.login = Phase::Idle;
                self.register = Phase::Idle;
                self.scene = Scene::LoginRegister;
                let r = vec![Effect::Persist(Session { token: None })];
                assert(effects_view(r@) =~= seq![EffectView::Persist(None)]);
                r
            },
            Err(_) => {
                self.logout = Phase::Failed;
                Vec::new()
            },
        }
    }

    /// Takes the outcome of the profile listing tagged `tag`. On success the
    /// list is replaced, every listed profile is enabled and the logged-in
    /// screen shown; on failure an error is recorded and the screen kept.
    pub fn on_profiles(&mut self, tag: u64, result: Result<ProfilesResponse, FetchFailure>) -> (r: Vec<Effect>)
        requires
            old(self).wf(),
        ensures
            final(self).wf(),
            r@.len() == 0,
            old(self).profiles_fetch != Phase::InFlight(tag) ==> *final(self) == *old(self),
            old(self).profiles_fetch == Phase::InFlight(tag) ==> match result {
                Ok(resp) => {
                    &&& *final(self) == (Client {
                        profiles: Some(resp.profiles),
                        enabled: final(self).enabled,
                        profiles_fetch: Phase::Done,
                        scene: Scene::LoggedIn,
                        ..*old(self)
                    })
                    &&& final(self).enabled@ == machine_names(resp.profiles@).to_set()
                },
                Err(_) => *final(self) == (Client { profiles_fetch: Phase::Failed, ..*old(self) }),
            },
    {
        if self.profiles_fetch != Phase::InFlight(tag) {
            return Vec::new();
        }
        match result {
            Ok(resp) => {
                self.enabled = ProfileSelection::all_of(&resp.profiles);
                self.profiles = Some(resp.profiles);
                self.profiles_fetch = Phase::Done;
                self.scene = Scene::LoggedIn;
            },
            Err(_) => {
                self.profiles_fetch = Phase::Failed;
            },
        }
        Vec::new()
    }

    /// Enables the profile `machine_name` for the next upload, or disables
    /// it if it was enabled. A name that is not among the profiles fetched
    /// last is ignored.
    pub fn toggle_profile(&mut self, machine_name: &String)
        requires
            old(self).wf(),
        ensures
            final(self).wf(),
            *final(self) == (Client { enabled: final(self).enabled, ..*old(self) }),
            final(self).enabled@ == if known_names(old(self).profiles).contains(machine_name@) {
                toggled(old(self).enabled@, machine_name@)
            } else {
                old(self).enabled@
            },
    {
        if self.is_known(machine_name) {
            self.enabled.toggle(machine_name);
        }
    }

    fn is_known(&self, machine_name: &String) -> (r: bool)
        ensures
            r == known_names(self.profiles).contains(machine_name@),
    {
        match &self.profiles {
            None => false,
            Some(ps) => {
                let mut i: usize = 0;
                while i < ps.len()
                    invariant
                        self.profiles == Some(*ps),
                        0 <= i <= ps@.len(),
                        forall|j: int| 0 <= j < i ==> machine_names(ps@)[j] != machine_name@,
                    decreases ps@.len() - i,
                {
                    if ps[i].machine_name == *machine_name {
                        assert(machine_names(ps@)[i as int] == machine_name@);
                        return true;
                    }
                    i = i + 1;
                }
                false
            },
        }
    }

    /// Takes the user's file selection: exactly one file starts its reading,
    /// unless an upload is already under way; any other selection is ignored.
    pub fn choose_files(&mut self, count: usize) -> (r: Vec<Effect>)
        requires
            old(self).wf(),
        ensures
            final(self).wf(),
            count != 1 || old(self).uploading() ==> *final(self) == *old(self) && r@.len() == 0,
            count == 1 && !old(self).uploading() ==> {
                &&& *final(self) == (Client { upload: Upload::Reading, ..*old(self) })
                &&& effects_view(r@) == seq![EffectView::ReadFile]
            },
    {
        if count != 1 || self.upload == Upload::Reading || self.upload.is_sending() {
            return Vec::new();
        }
        self.upload = Upload::Reading;
        let r = vec![Effect::ReadFile];
        assert(effects_view(r@) =~= seq![EffectView::ReadFile]);
        r
    }

    /// Takes the content of the file that was read, and uploads it for the
    /// profiles enabled now. Without a configuration or a token the upload
    /// fails at once.
    pub fn on_file_read(&mut self, content: Vec<u8>) -> (r: Vec<Effect>)
        requires
            old(self).wf(),
        ensures
            final(self).wf(),
            old(self).upload != Upload::Reading ==> *final(self) == *old(self) && r@.len() == 0,
            old(self).upload == Upload::Reading && old(self).authorized() ==> {
                &&& *final(self) == (Client {
                    upload: Upload::Sending(old(self).issued),
                    issued: next_tag(old(self).issued),
                    ..*old(self)
                })
                &&& effects_view(r@) == seq![EffectView::Send(create_report_request(old(self).issued,
                    old(self).api_url(), old(self).token(), comma_joined(old(self).enabled.names()),
                    content@))]
            },
            old(self).upload == Upload::Reading && !old(self).authorized() ==> {
                &&& *final(self) == (Client { upload: Upload::Failed, ..*old(self) })
                &&& r@.len() == 0
            },
    {
        if self.upload != Upload::Reading {
            return Vec::new();
        }
        if self.config.is_none() || self.session.token.is_none() {
            self.upload = Upload::Failed;
            return Vec::new();
        }
        let tag = self.take_tag();
        self.upload = Upload::Sending(tag);
        let csv = self.enabled.to_csv();
        let req = build_create_report_request(tag, &self.config.as_ref().unwrap().api_url,
            self.session.token.as_ref().unwrap(), &csv, content);
        let r = vec![Effect::Send(req)];
        assert(effects_view(r@) =~= seq![EffectView::Send(req@)]);
        r
    }

    /// Fetches the tasks of the report being polled, superseding an earlier
    /// fetch.
    fn fetch_tasks(&mut self, report_id: i64) -> (r: Effect)
        requires
            old(self).authorized(),
        ensures
            *final(self) == (Client {
                poller: Poller::Polling { report_id, fetch: Some(old(self).issued) },
                issued: next_tag(old(self).issued),
                ..*old(self)
            }),
            r@ == EffectView::Send(tasks_request(old(self).issued, old(self).api_url(), old(self).token(), report_id)),
    {
        let tag = self.take_tag();
        self.poller = Poller::Polling { report_id, fetch: Some(tag) };
        let api_url = &self.config.as_ref().unwrap().api_url;
        let token = self.session.token.as_ref().unwrap();
        Effect::Send(build_tasks_request(tag, api_url, token, report_id))
    }

    /// Takes the outcome of the upload tagged `tag`. On success the tasks of
    /// the new report are fetched at once and the poll timer armed; on
    /// failure no report exists and nothing is polled.
    pub fn on_report_created(&mut self, tag: u64, result: Result<CreateResponse, FetchFailure>) -> (r: Vec<Effect>)
        requires
            old(self).wf(),
        ensures
            final(self).wf(),
            old(self).upload != Upload::Sending(tag) ==> *final(self) == *old(self) && r@.len() == 0,
            old(self).upload == Upload::Sending(tag) ==> match result {
                Ok(resp) => if old(self).authorized() {
                    &&& *final(self) == (Client {
                        upload: Upload::Idle,
                        poller: Poller::Polling { report_id: resp.report_id, fetch: Some(old(self).issued) },
                        tasks: None,
                        tasks_error: false,
                        issued: next_tag(old(self).issued),
                        ..*old(self)
                    })
                    &&& effects_view(r@) == seq![
                        EffectView::Send(tasks_request(old(self).issued, old(self).api_url(), old(self).token(),
                            resp.report_id)),
                        EffectView::StartPolling { report_id: resp.report_id, period_ms: POLL_PERIOD_MS },
                    ]
                } else {
                    &&& *final(self) == (Client {
                        upload: Upload::Idle,
                        poller: Poller::Polling { report_id: resp.report_id, fetch: None },
                        tasks: None,
                        tasks_error: false,
                        ..*old(self)
                    })
                    &&& effects_view(r@) == seq![
                        EffectView::StartPolling { report_id: resp.report_id, period_ms: POLL_PERIOD_MS },
                    ]
                },
                Err(_) => *final(self) == (Client { upload: Upload::Failed, ..*old(self) }) && r@.len() == 0,
            },
    {
        if self.upload != Upload::Sending(tag) {
            return Vec::new();
        }
        match result {
            Ok(resp) => {
                let report_id = resp.report_id;
                self.upload = Upload::Idle;
                self.tasks = None;
                self.tasks_error = false;
                let timer = Effect::StartPolling { report_id, period_ms: POLL_PERIOD_MS };
                if self.config.is_some() && self.session.token.is_some() {
                    let fetch = self.fetch_tasks(report_id);
                    let r = vec![fetch, timer];
                    assert(effects_view(r@) =~= seq![fetch@, timer@]);
                    r
                } else {
                    self.poller = Poller::Polling { report_id, fetch: None };
                    let r = vec![timer];
                    assert(effects_view(r@) =~= seq![timer@]);
                    r
                }
            },
            Err(_) => {
                self.upload = Upload::Failed;
                Vec::new()
            },
        }
    }

    /// A tick of the poll timer: fetches the tasks again while polling.
    pub fn on_poll_tick(&mut self) -> (r: Vec<Effect>)
        requires
            old(self).wf(),
        ensures
            final(self).wf(),
            !(old(self).poller is Polling) || !old(self).authorized() ==> *final(self) == *old(self) && r@.len() == 0,
            old(self).poller is Polling && old(self).authorized() ==> {
                let report_id = old(self).poller->Polling_report_id;
                &&& *final(self) == (Client {
                    poller: Poller::Polling { report_id, fetch: Some(old(self).issued) },
                    issued: next_tag(old(self).issued),
                    ..*old(self)
                })
                &&& effects_view(r@) == seq![
                    EffectView::Send(tasks_request(old(self).issued, old(self).api_url(), old(self).token(), report_id)),
                ]
            },
    {
        match self.poller {
            Poller::Polling { report_id, fetch: _ } => {
                if self.config.is_none() || self.session.token.is_none() {
                    return Vec::new();
                }
                let fetch = self.fetch_tasks(report_id);
                let r = vec![fetch];
                assert(effects_view(r@) =~= seq![fetch@]);
                r
            },
            _ => Vec::new(),
        }
    }

    /// Takes the outcome of the task listing tagged `tag`. On success the
    /// list is replaced, and polling stops exactly when no task is still
    /// pending; a failure is recorded and polling goes on.
    pub fn on_tasks(&mut self, tag: u64, result: Result<TasksResponse, FetchFailure>) -> (r: Vec<Effect>)
        requires
            old(self).wf(),
        ensures
            final(self).wf(),
            !old(self).awaits_tasks(tag) ==> *final(self) == *old(self) && r@.len() == 0,
            old(self).awaits_tasks(tag) ==> {
                let report_id = old(self).poller->Polling_report_id;
                match result {
                    Ok(resp) => if all_settled(resp.tasks@) {
                        &&& *final(self) == (Client {
                            poller: Poller::Stopped { report_id },
                            tasks: Some(resp.tasks),
                            tasks_error: false,
                            ..*old(self)
                        })
                        &&& effects_view(r@) == seq![EffectView::StopPolling]
                    } else {
                        &&& *final(self) == (Client {
                            poller: Poller::Polling { report_id, fetch: None },
                            tasks: Some(resp.tasks),
                            tasks_error: false,
                            ..*old(self)
                        })
                        &&& r@.len() == 0
                    },
                    Err(_) => {
                        &&& *final(self) == (Client {
                            poller: Poller::Polling { report_id, fetch: None },
                            tasks_error: true,
                            ..*old(self)
                        })
                        &&& r@.len() == 0
                    },
                }
            },
            old(self).awaits_tasks(tag) && result is Ok ==> (final(self).poller is Stopped
                <==> all_settled(result->Ok_0.tasks@)),
    {
        let report_id = match self.poller {
            Poller::Polling { report_id, fetch: Some(t) } => {
                if t != tag {
                    return Vec::new();
                }
                report_id
            },
            _ => {
                return Vec::new();
            },
        };
        match result {
            Ok(resp) => {
                let pending = has_pending(&resp.tasks);
                self.tasks = Some(resp.tasks);
                self.tasks_error = false;
                if pending {
                    self.poller = Poller::Polling { report_id, fetch: None };
                    Vec::new()
                } else {
                    self.poller = Poller::Stopped { report_id };
                    let r = vec![Effect::StopPolling];
                    assert(effects_view(r@) =~= seq![EffectView::StopPolling]);
                    r
                }
            },
            Err(_) => {
                self.poller = Poller::Polling { report_id, fetch: None };
                self.tasks_error = true;
                Vec::new()
            },
        }
    }

    /// The task listing tagged `tag` is the one awaited.
    pub open spec fn awaits_tasks(&self, tag: u64) -> bool {
        self.poller is Polling && self.poller->Polling_fetch == Some(tag)
    }

    /// The login / register form's error: which of the two last failed.
    pub open spec fn login_register_message(&self) -> Option<Seq<char>> {
        if self.login == Phase::Failed {
            Some("Could not login"@)
        } else if self.register == Phase::Failed {
            Some("Could not register"@)
        } else {
            None
        }
    }

    pub fn login_register_error(&self) -> (r: Option<String>)
        ensures
            optional_text(r) == self.login_register_message(),
    {
        if self.login == Phase::Failed {
            Some("Could not login".to_owned())
        } else if self.register == Phase::Failed {
            Some("Could not register".to_owned())
        } else {
            None
        }
    }

    /// The error of the last logout, if it failed.
    pub fn logout_error(&self) -> (r: Option<String>)
        ensures
            optional_text(r) == if self.logout == Phase::Failed {
                Some("Could not logout"@)
            } else {
                None
            },
    {
        if self.logout == Phase::Failed {
            Some("Could not logout".to_owned())
        } else {
            None
        }
    }

    /// The error of the last profile listing, if it failed.
    pub fn fetch_profiles_error(&self) -> (r: Option<String>)
        ensures
            optional_text(r) == if self.profiles_fetch == Phase::Failed {
                Some("Could not fetch profiles"@)
            } else {
                None
            },
    {
        if self.profiles_fetch == Phase::Failed {
            Some("Could not fetch profiles".to_owned())
        } else {
            None
        }
    }

    /// The login and register controls are both disabled while either
    /// operation is outstanding.
    pub fn is_login_disabled(&self) -> (r: bool)
        ensures
            r == self.auth_busy(),
    {
        self.login.is_in_flight() || self.register.is_in_flight()
    }

    pub fn is_register_disabled(&self) -> (r: bool)
        ensures
            r == self.auth_busy(),
    {
        self.is_login_disabled()
    }

    pub fn is_login_loading(&self) -> (r: bool)
        ensures
            r == (self.login is InFlight),
    {
        self.login.is_in_flight()
    }

    pub fn is_register_loading(&self) -> (r: bool)
        ensures
            r == (self.register is InFlight),
    {
        self.register.is_in_flight()
    }

    /// The logout control is disabled and loading while a logout is
    /// outstanding.
    pub fn is_logout_loading(&self) -> (r: bool)
        ensures
            r == (self.logout is InFlight),
    {
        self.logout.is_in_flight()
    }

    /// The file control is disabled while a file is read or uploaded.
    pub fn is_file_uploading(&self) -> (r: bool)
        ensures
            r == self.uploading(),
    {
        self.upload == Upload::Reading || self.upload.is_sending()
    }

    /// Whether the poll timer is meant to be running.
    pub fn is_polling(&self) -> (r: bool)
        ensures
            r == (self.poller is Polling),
    {
        match self.poller {
            Poller::Polling { .. } => true,
            _ => false,
        }
    }

    /// The text shown beside the profile `profile_id`.
    pub fn profile_status(&self, profile_id: i64) -> (r: String)
        ensures
            r@ == profile_status_text(
                match self.tasks {
                    Some(v) => Some(v@),
                    None => None,
                },
                profile_id,
            ),
    {
        profile_status(&self.tasks, profile_id)
    }
}

impl Upload {
    pub fn is_sending(&self) -> (r: bool)
        ensures
            r == (*self is Sending),
    {
        match self {
            Upload::Sending(_) => true,
            _ => false,
        }
    }
}

impl Phase {
    pub fn is_in_flight(&self) -> (r: bool)
        ensures
            r == (*self is InFlight),
    {
        match self {
            Phase::InFlight(_) => true,
            _ => false,
        }
    }
}

} // verus!
