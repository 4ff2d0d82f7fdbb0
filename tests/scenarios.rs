use violetear_client::api::{Body, Method, Request};
use violetear_client::client::{Client, Effect, Phase, Poller, Scene, Upload};
use violetear_client::model::{
    AuthResponse, Config, CreateResponse, CredentialsField, FetchFailure, Profile, ProfilesResponse,
    Session,
};
use violetear_client::tasks::{Task, TaskStatus, TasksResponse};

fn profile(id: i64, name: &str) -> Profile {
    Profile {
        id,
        machine_name: name.to_string(),
        human_name: name.to_uppercase(),
        module: "engine".to_string(),
        config: None,
    }
}

fn task(profile_id: i64, status: TaskStatus) -> Task {
    Task {
        id: profile_id * 10,
        report_id: 42,
        profile_id,
        created_when: 1_500_000_000_000,
        completed_when: None,
        status,
        message: None,
    }
}

fn only_request(effects: &[Effect]) -> &Request {
    assert_eq!(effects.len(), 1);
    match &effects[0] {
        Effect::Send(r) => r,
        _ => panic!("expected a request"),
    }
}

fn configured(token: Option<&str>) -> (Client, Vec<Effect>) {
    let mut c = Client::new(Session { token: token.map(|t| t.to_string()) });
    let start = c.start();
    let tag = only_request(&start).tag;
    let effects = c.on_config(tag, Ok(Config { api_url: "https://api.x".to_string() }));
    (c, effects)
}

fn logged_in() -> Client {
    let (mut c, effects) = configured(Some("tok"));
    let tag = only_request(&effects).tag;
    c.on_profiles(tag, Ok(ProfilesResponse { profiles: vec![profile(1, "p1"), profile(2, "p2")] }));
    c
}

fn polling_report_42() -> (Client, u64) {
    let mut c = logged_in();
    c.choose_files(1);
    let effects = c.on_file_read(vec![1, 2, 3]);
    let tag = only_request(&effects).tag;
    let effects = c.on_report_created(tag, Ok(CreateResponse { report_id: 42 }));
    let fetch = match &effects[0] {
        Effect::Send(r) => r.tag,
        _ => panic!("expected a task fetch"),
    };
    (c, fetch)
}

#[test]
fn config_without_session_shows_login() {
    let mut c = Client::new(Session { token: None });
    assert_eq!(c.scene, Scene::Loading);
    let start = c.start();
    let r = only_request(&start);
    assert_eq!(r.url, "/config.json");
    assert_eq!(r.method, Method::Get);
    assert!(r.authorization.is_none());
    let effects = c.on_config(r.tag, Ok(Config { api_url: "https://api.x".to_string() }));
    assert!(effects.is_empty());
    assert_eq!(c.scene, Scene::LoginRegister);
    assert_eq!(c.config.as_ref().unwrap().api_url, "https://api.x");
}

#[test]
fn stored_session_fetches_profiles_and_enables_all() {
    let (mut c, effects) = configured(Some("tok"));
    assert_eq!(c.scene, Scene::Loading);
    let r = only_request(&effects);
    assert_eq!(r.url, "https://api.x/v1/profiles");
    assert_eq!(r.method, Method::Get);
    assert_eq!(r.authorization.as_deref(), Some("tok"));
    let tag = r.tag;
    let effects = c.on_profiles(tag, Ok(ProfilesResponse { profiles: vec![profile(1, "p1"), profile(2, "p2")] }));
    assert!(effects.is_empty());
    assert_eq!(c.scene, Scene::LoggedIn);
    assert_eq!(c.enabled.len(), 2);
    assert!(c.enabled.contains(&"p1".to_string()));
    assert!(c.enabled.contains(&"p2".to_string()));
    assert_eq!(c.enabled.to_csv(), "p1,p2");
}

#[test]
fn upload_with_one_profile_starts_polling_report() {
    let mut c = logged_in();
    c.toggle_profile(&"p2".to_string());
    assert_eq!(c.enabled.to_csv(), "p1");

    let effects = c.choose_files(1);
    assert!(matches!(effects.as_slice(), [Effect::ReadFile]));
    assert!(c.is_file_uploading());

    let effects = c.on_file_read(vec![7, 8, 9]);
    let r = only_request(&effects);
    assert_eq!(r.method, Method::Post);
    assert_eq!(r.url, "https://api.x/v1/reports/create?profiles=p1");
    assert_eq!(r.authorization.as_deref(), Some("tok"));
    match &r.body {
        Body::Binary(b) => assert_eq!(b, &vec![7u8, 8, 9]),
        _ => panic!("expected the file content"),
    }

    let tag = r.tag;
    let effects = c.on_report_created(tag, Ok(CreateResponse { report_id: 42 }));
    assert!(!c.is_file_uploading());
    assert_eq!(effects.len(), 2);
    match &effects[0] {
        Effect::Send(r) => {
            assert_eq!(r.url, "https://api.x/v1/reports/42/tasks");
            assert_eq!(r.method, Method::Get);
            assert_eq!(r.authorization.as_deref(), Some("tok"));
        }
        _ => panic!("expected an immediate task fetch"),
    }
    match &effects[1] {
        Effect::StartPolling { report_id, period_ms } => {
            assert_eq!(*report_id, 42);
            assert_eq!(*period_ms, 1000);
        }
        _ => panic!("expected the poll timer"),
    }

    let tick = c.on_poll_tick();
    assert_eq!(only_request(&tick).url, "https://api.x/v1/reports/42/tasks");
}

#[test]
fn polling_stops_after_tasks_settle() {
    let (mut c, fetch) = polling_report_42();
    let effects = c.on_tasks(fetch, Ok(TasksResponse { tasks: vec![task(1, TaskStatus::Pending)] }));
    assert!(effects.is_empty());
    assert!(c.is_polling());

    let tick = c.on_poll_tick();
    let fetch = only_request(&tick).tag;
    let effects = c.on_tasks(fetch, Ok(TasksResponse { tasks: vec![task(1, TaskStatus::Clean)] }));
    assert!(matches!(effects.as_slice(), [Effect::StopPolling]));
    assert!(!c.is_polling());
    assert_eq!(c.poller, Poller::Stopped { report_id: 42 });
    assert!(c.on_poll_tick().is_empty());
}

#[test]
fn rejected_login_sets_error_and_clears_busy_flags() {
    let (mut c, _) = configured(None);
    c.set_field(CredentialsField::Username, "alice".to_string());
    c.set_field(CredentialsField::Password, "pw".to_string());
    let effects = c.login();
    let r = only_request(&effects);
    assert_eq!(r.url, "https://api.x/v1/auth/login");
    assert_eq!(r.method, Method::Post);
    match &r.body {
        Body::Credentials(cr) => {
            assert_eq!(cr.username, "alice");
            assert_eq!(cr.password, "pw");
        }
        _ => panic!("expected the credentials"),
    }
    assert!(c.is_login_disabled());
    assert!(c.is_register_disabled());
    assert!(c.is_login_loading());
    assert!(!c.is_register_loading());

    let tag = r.tag;
    let effects = c.on_login(tag, Err(FetchFailure::Status(401)));
    assert!(effects.is_empty());
    assert_eq!(c.login_register_error().as_deref(), Some("Could not login"));
    assert!(!c.is_login_disabled());
    assert!(!c.is_register_disabled());
    assert!(!c.is_login_loading());
    assert_eq!(c.scene, Scene::LoginRegister);
    assert!(c.session.token.is_none());
}

#[test]
fn login_success_stores_token_and_fetches_profiles() {
    let (mut c, _) = configured(None);
    let effects = c.login();
    let tag = only_request(&effects).tag;
    let effects = c.on_login(tag, Ok(AuthResponse { token: Some("t1".to_string()) }));
    assert_eq!(c.session.token.as_deref(), Some("t1"));
    assert!(!c.is_login_disabled());
    assert!(!c.is_login_loading());
    assert_eq!(effects.len(), 2);
    match &effects[0] {
        Effect::Persist(s) => assert_eq!(s.token.as_deref(), Some("t1")),
        _ => panic!("expected the session to be persisted"),
    }
    match &effects[1] {
        Effect::Send(r) => {
            assert_eq!(r.url, "https://api.x/v1/profiles");
            assert_eq!(r.authorization.as_deref(), Some("t1"));
        }
        _ => panic!("expected a profile fetch"),
    }
}

#[test]
fn login_success_without_token_is_an_error() {
    let (mut c, _) = configured(None);
    let effects = c.login();
    let tag = only_request(&effects).tag;
    let effects = c.on_login(tag, Ok(AuthResponse { token: None }));
    assert!(effects.is_empty());
    assert!(c.session.token.is_none());
    assert_eq!(c.login_register_error().as_deref(), Some("Could not login"));
}

#[test]
fn register_disables_login_and_reports_its_own_error() {
    let (mut c, _) = configured(None);
    let effects = c.register();
    let r = only_request(&effects);
    assert_eq!(r.url, "https://api.x/v1/auth/register");
    let tag = r.tag;
    assert!(c.is_login_disabled());
    assert!(c.is_register_loading());
    assert!(c.login().is_empty());
    let effects = c.on_register(tag, Err(FetchFailure::Transport));
    assert!(effects.is_empty());
    assert_eq!(c.login_register_error().as_deref(), Some("Could not register"));
    assert!(!c.is_register_loading());

    let effects = c.register();
    let tag = only_request(&effects).tag;
    assert!(c.login_register_error().is_none());
    let effects = c.on_register(tag, Ok(AuthResponse { token: Some("t2".to_string()) }));
    assert_eq!(effects.len(), 2);
    assert_eq!(c.session.token.as_deref(), Some("t2"));
}

#[test]
fn login_before_config_does_nothing() {
    let mut c = Client::new(Session { token: None });
    assert!(c.login().is_empty());
    assert_eq!(c.login, Phase::Idle);
    assert!(!c.is_login_disabled());
}

#[test]
fn logout_failure_keeps_token() {
    let mut c = logged_in();
    let effects = c.logout();
    let r = only_request(&effects);
    assert_eq!(r.url, "https://api.x/v1/auth/logout");
    assert_eq!(r.method, Method::Post);
    assert_eq!(r.authorization.as_deref(), Some("tok"));
    assert!(c.is_logout_loading());
    assert!(c.logout().is_empty());
    let tag = r.tag;
    let effects = c.on_logout(tag, Err(FetchFailure::Status(500)));
    assert!(effects.is_empty());
    assert_eq!(c.session.token.as_deref(), Some("tok"));
    assert_eq!(c.scene, Scene::LoggedIn);
    assert_eq!(c.logout_error().as_deref(), Some("Could not logout"));
    assert!(!c.is_logout_loading());
}

#[test]
fn logout_success_clears_session() {
    let mut c = logged_in();
    let effects = c.logout();
    let tag = only_request(&effects).tag;
    let effects = c.on_logout(tag, Ok(()));
    assert_eq!(effects.len(), 1);
    match &effects[0] {
        Effect::Persist(s) => assert!(s.token.is_none()),
        _ => panic!("expected the emptied session to be persisted"),
    }
    assert!(c.session.token.is_none());
    assert_eq!(c.scene, Scene::LoginRegister);
    assert!(c.logout_error().is_none());
    assert!(c.login_register_error().is_none());
    assert!(c.logout().is_empty());
}

#[test]
fn config_failure_shows_error_scene() {
    let mut c = Client::new(Session { token: Some("tok".to_string()) });
    let start = c.start();
    let tag = only_request(&start).tag;
    let effects = c.on_config(tag, Err(FetchFailure::Decode));
    assert!(effects.is_empty());
    assert_eq!(c.scene, Scene::FetchConfigError);
}

#[test]
fn profile_fetch_failure_keeps_scene() {
    let (mut c, effects) = configured(Some("tok"));
    let tag = only_request(&effects).tag;
    c.on_profiles(tag, Err(FetchFailure::Status(503)));
    assert_eq!(c.scene, Scene::Loading);
    assert_eq!(c.fetch_profiles_error().as_deref(), Some("Could not fetch profiles"));
    assert_eq!(c.enabled.len(), 0);
}

#[test]
fn stale_completion_is_ignored() {
    let mut c = Client::new(Session { token: None });
    let first = only_request(&c.start()).tag;
    let second = only_request(&c.start()).tag;
    assert_ne!(first, second);
    let effects = c.on_config(first, Ok(Config { api_url: "https://old".to_string() }));
    assert!(effects.is_empty());
    assert!(c.config.is_none());
    assert_eq!(c.scene, Scene::Loading);
    c.on_config(second, Ok(Config { api_url: "https://api.x".to_string() }));
    assert_eq!(c.scene, Scene::LoginRegister);
    c.on_config(second, Err(FetchFailure::Transport));
    assert_eq!(c.scene, Scene::LoginRegister);
}

#[test]
fn refetch_resets_toggles() {
    let mut c = logged_in();
    c.toggle_profile(&"p1".to_string());
    assert_eq!(c.enabled.to_csv(), "p2");
    let effects = c.login();
    let tag = only_request(&effects).tag;
    let effects = c.on_login(tag, Ok(AuthResponse { token: Some("t3".to_string()) }));
    let fetch = match &effects[1] {
        Effect::Send(r) => r.tag,
        _ => panic!("expected a profile fetch"),
    };
    c.on_profiles(fetch, Ok(ProfilesResponse { profiles: vec![profile(1, "p1"), profile(3, "p3")] }));
    assert_eq!(c.enabled.len(), 2);
    assert_eq!(c.enabled.to_csv(), "p1,p3");
    assert!(!c.enabled.contains(&"p2".to_string()));
    c.toggle_profile(&"p2".to_string());
    assert_eq!(c.enabled.len(), 2);
}

#[test]
fn toggling_twice_restores_and_unknown_names_are_ignored() {
    let mut c = logged_in();
    c.toggle_profile(&"p1".to_string());
    assert!(!c.enabled.contains(&"p1".to_string()));
    c.toggle_profile(&"p1".to_string());
    assert!(c.enabled.contains(&"p1".to_string()));
    assert_eq!(c.enabled.len(), 2);
    c.toggle_profile(&"p9".to_string());
    assert!(!c.enabled.contains(&"p9".to_string()));
    assert_eq!(c.enabled.len(), 2);
    c.toggle_profile(&"p1".to_string());
    c.toggle_profile(&"p2".to_string());
    c.toggle_profile(&"p1".to_string());
    assert_eq!(c.enabled.to_csv(), "p1");
}

#[test]
fn only_a_single_file_starts_an_upload() {
    let mut c = logged_in();
    assert!(c.choose_files(0).is_empty());
    assert!(c.choose_files(2).is_empty());
    assert_eq!(c.upload, Upload::Idle);
    assert_eq!(c.choose_files(1).len(), 1);
    assert!(c.choose_files(1).is_empty());
}

#[test]
fn upload_failure_polls_nothing() {
    let mut c = logged_in();
    c.choose_files(1);
    let effects = c.on_file_read(vec![]);
    let tag = only_request(&effects).tag;
    let effects = c.on_report_created(tag, Err(FetchFailure::Status(400)));
    assert!(effects.is_empty());
    assert_eq!(c.upload, Upload::Failed);
    assert!(!c.is_polling());
    assert!(!c.is_file_uploading());
}

#[test]
fn empty_task_list_stops_polling() {
    let (mut c, fetch) = polling_report_42();
    let effects = c.on_tasks(fetch, Ok(TasksResponse { tasks: vec![] }));
    assert!(matches!(effects.as_slice(), [Effect::StopPolling]));
    assert!(!c.is_polling());
}

#[test]
fn failed_poll_keeps_polling() {
    let (mut c, fetch) = polling_report_42();
    let effects = c.on_tasks(fetch, Err(FetchFailure::Transport));
    assert!(effects.is_empty());
    assert!(c.is_polling());
    assert!(c.tasks_error);
    let tick = c.on_poll_tick();
    let fetch = only_request(&tick).tag;
    let effects = c.on_tasks(fetch, Ok(TasksResponse {
        tasks: vec![task(1, TaskStatus::Detected), task(2, TaskStatus::New)],
    }));
    assert!(effects.is_empty());
    assert!(c.is_polling());
    assert!(!c.tasks_error);
}

#[test]
fn late_poll_result_is_ignored() {
    let (mut c, first) = polling_report_42();
    let tick = c.on_poll_tick();
    let second = only_request(&tick).tag;
    let effects = c.on_tasks(first, Ok(TasksResponse { tasks: vec![task(1, TaskStatus::Clean)] }));
    assert!(effects.is_empty());
    assert!(c.is_polling());
    assert!(c.tasks.is_none());
    let effects = c.on_tasks(second, Ok(TasksResponse { tasks: vec![task(1, TaskStatus::Timeout)] }));
    assert_eq!(effects.len(), 1);
}

#[test]
fn profile_status_follows_tasks() {
    let (mut c, fetch) = polling_report_42();
    assert_eq!(c.profile_status(1), "Idle");
    let mut detected = task(2, TaskStatus::Detected);
    detected.message = Some("Eicar-Test-Signature".to_string());
    c.on_tasks(fetch, Ok(TasksResponse { tasks: vec![task(1, TaskStatus::Pending), detected] }));
    assert_eq!(c.profile_status(1), "Processing..");
    assert_eq!(c.profile_status(2), "Eicar-Test-Signature");
    assert_eq!(c.profile_status(3), "");
}
