//! The requests the client sends to the scanning service.
use vstd::prelude::*;
use crate::decimal::{append_decimal, decimal};
use crate::model::Credentials;

verus! {

#[derive(Clone, Copy, PartialEq, Eq, Structural, Debug)]
pub enum Method {
    Get,
    Post,
}

/// The service resource a request addresses, which also says what its
/// answer holds.
#[derive(Clone, Copy, PartialEq, Eq, Structural, Debug)]
pub enum Endpoint {
    Config,
    Login,
    Register,
    Logout,
    Profiles,
    CreateReport,
    Tasks,
}

/// What a request carries: nothing, the login / register form as JSON, or
/// raw file content.
pub enum Body {
    Empty,
    Credentials(Credentials),
    Binary(Vec<u8>),
}

pub enum BodyView {
    Empty,
    Credentials { username: Seq<char>, password: Seq<char> },
    Binary(Seq<u8>),
}

impl View for Body {
    type V = BodyView;

    open spec fn view(&self) -> BodyView {
        match self {
            Body::Empty => BodyView::Empty,
            Body::Credentials(c) => BodyView::Credentials {
                username: c.username@,
                password: c.password@,
            },
            Body::Binary(b) => BodyView::Binary(b@),
        }
    }
}

/// One HTTP request. `authorization`, when present, is sent verbatim as the
/// `Authorization` header. `tag` identifies the request: its completion is
/// reported back with the same tag.
pub struct Request {
    pub tag: u64,
    pub endpoint: Endpoint,
    pub method: Method,
    pub url: String,
    pub authorization: Option<String>,
    pub body: Body,
}

pub struct RequestView {
    pub tag: u64,
    pub endpoint: Endpoint,
    pub method: Method,
    pub url: Seq<char>,
    pub authorization: Option<Seq<char>>,
    pub body: BodyView,
}

impl View for Request {
    type V = RequestView;

    open spec fn view(&self) -> RequestView {
        RequestView {
            tag: self.tag,
            endpoint: self.endpoint,
            method: self.method,
            url: self.url@,
            authorization: match self.authorization {
                Some(t) => Some(t@),
                None => None,
            },
            body: self.body@,
        }
    }
}

pub open spec fn config_request(tag: u64) -> RequestView {
    RequestView {
        tag,
        endpoint: Endpoint::Config,
        method: Method::Get,
        url: "/config.json"@,
        authorization: None,
        body: BodyView::Empty,
    }
}

pub open spec fn login_request(tag: u64, api_url: Seq<char>, username: Seq<char>, password: Seq<char>) -> RequestView {
    RequestView {
        tag,
        endpoint: Endpoint::Login,
        method: Method::Post,
        url: api_url + "/v1/auth/login"@,
        authorization: None,
        body: BodyView::Credentials { username, password },
    }
}

pub open spec fn register_request(tag: u64, api_url: Seq<char>, username: Seq<char>, password: Seq<char>) -> RequestView {
    RequestView {
        tag,
        endpoint: Endpoint::Register,
        method: Method::Post,
        url: api_url + "/v1/auth/register"@,
        authorization: None,
        body: BodyView::Credentials { username, password },
    }
}

pub open spec fn logout_request(tag: u64, api_url: Seq<char>, token: Seq<char>) -> RequestView {
    RequestView {
        tag,
        endpoint: Endpoint::Logout,
        method: Method::Post,
        url: api_url + "/v1/auth/logout"@,
        authorization: Some(token),
        body: BodyView::Empty,
    }
}

pub open spec fn profiles_request(tag: u64, api_url: Seq<char>, token: Seq<char>) -> RequestView {
    RequestView {
        tag,
        endpoint: Endpoint::Profiles,
        method: Method::Get,
        url: api_url + "/v1/profiles"@,
        authorization: Some(token),
        body: BodyView::Empty,
    }
}

pub open spec fn create_report_request(
    tag: u64,
    api_url: Seq<char>,
    token: Seq<char>,
    profiles_csv: Seq<char>,
    content: Seq<u8>,
) -> RequestView {
    RequestView {
        tag,
        endpoint: Endpoint::CreateReport,
        method: Method::Post,
        url: api_url + "/v1/reports/create?profiles="@ + profiles_csv,
        authorization: Some(token),
        body: BodyView::Binary(content),
    }
}

pub open spec fn tasks_request(tag: u64, api_url: Seq<char>, token: Seq<char>, report_id: i64) -> RequestView {
    RequestView {
        tag,
        endpoint: Endpoint::Tasks,
        method: Method::Get,
        url: api_url + "/v1/reports/"@ + decimal(report_id as int) + "/tasks"@,
        authorization: Some(token),
        body: BodyView::Empty,
    }
}

fn joined(a: &String, b: &str) -> (r: String)
    ensures
        r@ == a@ + b@,
{
    let r = a.clone();
    r.concat(b)
}

/// Fetches the static configuration.
pub fn build_config_request(tag: u64) -> (r: Request)
    ensures
        r@ == config_request(tag),
{
    Request {
        tag,
        endpoint: Endpoint::Config,
        method: Method::Get,
        url: "/config.json".to_owned(),
        authorization: None,
        body: Body::Empty,
    }
}

fn credentials_body(form: &Credentials) -> (r: Body)
    ensures
        r@ == (BodyView::Credentials { username: form.username@, password: form.password@ }),
{
    Body::Credentials(Credentials { username: form.username.clone(), password: form.password.clone() })
}

/// Logs in with the form's credentials.
pub fn build_login_request(tag: u64, api_url: &String, form: &Credentials) -> (r: Request)
    ensures
        r@ == login_request(tag, api_url@, form.username@, form.password@),
{
    Request {
        tag,
        endpoint: Endpoint::Login,
        method: Method::Post,
        url: joined(api_url, "/v1/auth/login"),
        authorization: None,
        body: credentials_body(form),
    }
}

/// Registers a new account with the form's credentials.
pub fn build_register_request(tag: u64, api_url: &String, form: &Credentials) -> (r: Request)
    ensures
        r@ == register_request(tag, api_url@, form.username@, form.password@),
{
    Request {
        tag,
        endpoint: Endpoint::Register,
        method: Method::Post,
        url: joined(api_url, "/v1/auth/register"),
        authorization: None,
        body: credentials_body(form),
    }
}

/// Ends the session that `token` stands for.
pub fn build_logout_request(tag: u64, api_url: &String, token: &String) -> (r: Request)
    ensures
        r@ == logout_request(tag, api_url@, token@),
{
    Request {
        tag,
        endpoint: Endpoint::Logout,
        method: Method::Post,
        url: joined(api_url, "/v1/auth/logout"),
        authorization: Some(token.clone()),
        body: Body::Empty,
    }
}

/// Lists the available profiles.
pub fn build_profiles_request(tag: u64, api_url: &String, token: &String) -> (r: Request)
    ensures
        r@ == profiles_request(tag, api_url@, token@),
{
    Request {
        tag,
        endpoint: Endpoint::Profiles,
        method: Method::Get,
        url: joined(api_url, "/v1/profiles"),
        authorization: Some(token.clone()),
        body: Body::Empty,
    }
}

/// Uploads `content` for analysis by the profiles listed in `profiles_csv`.
pub fn build_create_report_request(
    tag: u64,
    api_url: &String,
    token: &String,
    profiles_csv: &String,
    content: Vec<u8>,
) -> (r: Request)
    ensures
        r@ == create_report_request(tag, api_url@, token@, profiles_csv@, content@),
{
    let mut url = joined(api_url, "/v1/reports/create?profiles=");
    url.append(profiles_csv.as_str());
    Request {
        tag,
        endpoint: Endpoint::CreateReport,
        method: Method::Post,
        url,
        authorization: Some(token.clone()),
        body: Body::Binary(content),
    }
}

/// Lists the tasks of the report `report_id`.
pub fn build_tasks_request(tag: u64, api_url: &String, token: &String, report_id: i64) -> (r: Request)
    ensures
        r@ == tasks_request(tag, api_url@, token@, report_id),
{
    let mut url = joined(api_url, "/v1/reports/");
    append_decimal(&mut url, report_id);
    url.append("/tasks");
    Request {
        tag,
        endpoint: Endpoint::Tasks,
        method: Method::Get,
        url,
        authorization: Some(token.clone()),
        body: Body::Empty,
    }
}

} // verus!
