//! The decisions taken for one request, from its path to its public response.
//!
//! A request is handled in up to three steps, each a function from what is
//! known so far to what comes next: `respond_to_path` reads the path and either
//! answers or asks for the user's record; `respond_with_user` takes the outcome
//! of that lookup and either answers or asks for the avatar image;
//! `respond_with_image` takes the outcome of that fetch and answers.
use vstd::prelude::*;
use vstd::string::StringExecFns;
use crate::avatar::{
    avatar_url_for, build_profile, get_avatar_url, profile_for, ProfileView, PublicProfile,
    UserRecord, UserView,
};
use crate::decimal::{decimal_of, decimal_string, parse_u64, parse_unsigned};
use crate::route::{
    lemma_route_id_independent_of_format, route, route_of, Format, Route, RouteView,
};

verus! {

/// Where the root path redirects to.
pub const PROJECT_URL: &'static str = "https://git.nea.moe/nea/discordavatarproxy";

/// How a lookup of a user's record at the provider failed.
#[derive(Clone, Copy, Debug, PartialEq, Eq, Structural)]
pub enum UpstreamError {
    /// No response came: connection, TLS or timeout.
    NetworkFailure,
    /// The provider answered with an error status.
    NonSuccessStatus,
    /// The body was no JSON, or lacked a required field.
    MalformedBody,
}

/// A status and message: all that a caller learns of a failure.
#[derive(Clone, Debug)]
pub struct PublicError {
    pub status: u16,
    pub message: String,
}

impl PublicError {
    /// The response body: the status, a space, then the message.
    pub fn body_text(&self) -> (r: String)
        ensures
            r@ == decimal_of(self.status as nat) + " "@ + self.message@,
    {
        decimal_string(self.status as u64).concat(" ").concat(self.message.as_str())
    }
}

/// A public error with the given status and message.
pub fn make_err(status: u16, text: &str) -> (r: PublicError)
    ensures
        r.status == status,
        r.message@ == text@,
{
    PublicError { status, message: String::from_str(text) }
}

/// The answer to any failure that nothing else anticipated.
pub fn internal_error() -> (r: PublicError)
    ensures
        r.status == 500,
        r.message@ == "Internal Error"@,
{
    make_err(500, "Internal Error")
}

/// A response to send.
#[derive(Clone, Debug)]
pub enum Reply {
    /// 302 to the given location.
    Redirect(String),
    /// A failure, with its status and message.
    Error(PublicError),
    /// 200 with the profile as JSON.
    Profile(PublicProfile),
    /// 200 with the fetched avatar image passed through unchanged.
    Image,
}

pub enum ReplyView {
    Redirect(Seq<char>),
    Error(u16, Seq<char>),
    Profile(ProfileView),
    Image,
}

impl View for Reply {
    type V = ReplyView;

    open spec fn view(&self) -> ReplyView {
        match self {
            Reply::Redirect(location) => ReplyView::Redirect(location@),
            Reply::Error(e) => ReplyView::Error(e.status, e.message@),
            Reply::Profile(p) => ReplyView::Profile(p@),
            Reply::Image => ReplyView::Image,
        }
    }
}

pub open spec fn reply_status(r: ReplyView) -> u16 {
    match r {
        ReplyView::Redirect(_) => 302,
        ReplyView::Error(status, _) => status,
        ReplyView::Profile(_) => 200,
        ReplyView::Image => 200,
    }
}

pub open spec fn reply_content_type(r: ReplyView) -> Option<Seq<char>> {
    match r {
        ReplyView::Profile(_) => Some("application/json"@),
        ReplyView::Image => Some("image/png"@),
        _ => None,
    }
}

impl Reply {
    /// The HTTP status of the response.
    pub fn status(&self) -> (r: u16)
        ensures
            r == reply_status(self@),
    {
        match self {
            Reply::Redirect(_) => 302,
            Reply::Error(e) => e.status,
            Reply::Profile(_) => 200,
            Reply::Image => 200,
        }
    }

    /// The content type of the response body, where it has one.
    pub fn content_type(&self) -> (r: Option<&'static str>)
        ensures
            match r {
                Some(t) => reply_content_type(self@) == Some(t@),
                None => reply_content_type(self@) is None,
            },
    {
        match self {
            Reply::Profile(_) => Some("application/json"),
            Reply::Image => Some("image/png"),
            _ => None,
        }
    }
}

/// What to do after reading the path.
#[derive(Debug)]
pub enum Step {
    Respond(Reply),
    /// Look the user up at the provider, then go on in the given format.
    FetchUser(u64, Format),
}

pub enum StepView {
    Respond(ReplyView),
    FetchUser(u64, Format),
}

impl View for Step {
    type V = StepView;

    open spec fn view(&self) -> StepView {
        match self {
            Step::Respond(r) => StepView::Respond(r@),
            Step::FetchUser(id, format) => StepView::FetchUser(*id, *format),
        }
    }
}

pub open spec fn not_found() -> ReplyView {
    ReplyView::Error(404, "Not found"@)
}

pub open spec fn upstream_failed() -> ReplyView {
    ReplyView::Error(502, "Discord failed to respond"@)
}

/// The lookup asked for by an id in the given format, or 404 where it is no
/// positive number.
pub open spec fn lookup_for(id: Seq<char>, format: Format) -> StepView {
    match parse_unsigned(id, u64::MAX as nat) {
        Some(n) if n > 0 => StepView::FetchUser(n as u64, format),
        _ => StepView::Respond(not_found()),
    }
}

/// What a request path leads to.
pub open spec fn step_for(p: Seq<char>) -> StepView {
    match route_of(p) {
        RouteView::Root => StepView::Respond(ReplyView::Redirect(PROJECT_URL@)),
        RouteView::NotFound => StepView::Respond(not_found()),
        RouteView::InvalidFormat => StepView::Respond(ReplyView::Error(404, "Invalid format"@)),
        RouteView::AvatarImage(id) => lookup_for(id, Format::Image),
        RouteView::AvatarJson(id) => lookup_for(id, Format::Json),
    }
}

fn lookup(id: &String, format: Format) -> (r: Step)
    ensures
        r@ == lookup_for(id@, format),
{
    match parse_u64(id.as_str()) {
        Some(n) if n > 0 => Step::FetchUser(n, format),
        _ => Step::Respond(Reply::Error(make_err(404, "Not found"))),
    }
}

/// Decides from the request path alone: a response, or a lookup of the user.
pub fn respond_to_path(path: &str) -> (r: Step)
    ensures
        r@ == step_for(path@),
{
    match route(path) {
        Route::Root => Step::Respond(Reply::Redirect(String::from_str(PROJECT_URL))),
        Route::NotFound => Step::Respond(Reply::Error(make_err(404, "Not found"))),
        Route::InvalidFormat => Step::Respond(Reply::Error(make_err(404, "Invalid format"))),
        Route::AvatarImage(id) => lookup(&id, Format::Image),
        Route::AvatarJson(id) => lookup(&id, Format::Json),
    }
}

/// What to do once the user's record is looked up.
#[derive(Debug)]
pub enum UserStep {
    Respond(Reply),
    /// Fetch the image at this URL and pass it through.
    FetchImage(String),
}

pub enum UserStepView {
    Respond(ReplyView),
    FetchImage(Seq<char>),
}

impl View for UserStep {
    type V = UserStepView;

    open spec fn view(&self) -> UserStepView {
        match self {
            UserStep::Respond(r) => UserStepView::Respond(r@),
            UserStep::FetchImage(url) => UserStepView::FetchImage(url@),
        }
    }
}

pub open spec fn fetched_view(f: Result<UserRecord, UpstreamError>) -> Result<UserView, UpstreamError> {
    match f {
        Ok(u) => Ok(u@),
        Err(e) => Err(e),
    }
}

/// What the outcome of a lookup leads to: any failure, of the lookup or of the
/// record's own format, is 502.
pub open spec fn user_step_for(format: Format, f: Result<UserView, UpstreamError>) -> UserStepView {
    match f {
        Err(_) => UserStepView::Respond(upstream_failed()),
        Ok(u) => match format {
            Format::Json => match profile_for(u) {
                Some(p) => UserStepView::Respond(ReplyView::Profile(p)),
                None => UserStepView::Respond(upstream_failed()),
            },
            Format::Image => match avatar_url_for(u) {
                Some(url) => UserStepView::FetchImage(url),
                None => UserStepView::Respond(upstream_failed()),
            },
        },
    }
}

/// Decides from the outcome of the user lookup: a response, or a fetch of the avatar.
pub fn respond_with_user(format: Format, fetched: &Result<UserRecord, UpstreamError>) -> (r: UserStep)
    ensures
        r@ == user_step_for(format, fetched_view(*fetched)),
{
    let record = match fetched {
        Err(_) => return UserStep::Respond(Reply::Error(make_err(502, "Discord failed to respond"))),
        Ok(record) => record,
    };
    match format {
        Format::Json => match build_profile(record) {
            Ok(p) => UserStep::Respond(Reply::Profile(p)),
            Err(_) => UserStep::Respond(Reply::Error(make_err(502, "Discord failed to respond"))),
        },
        Format::Image => match get_avatar_url(record) {
            Ok(url) => UserStep::FetchImage(url),
            Err(_) => UserStep::Respond(Reply::Error(make_err(502, "Discord failed to respond"))),
        },
    }
}

pub open spec fn avatar_failed(url: Seq<char>) -> ReplyView {
    ReplyView::Error(502, "Discord failed to supply avatar for url: "@ + url)
}

/// Decides from the outcome of the avatar fetch: the image, or 502 naming the URL.
pub fn respond_with_image(url: &String, fetched: bool) -> (r: Reply)
    ensures
        r@ == (if fetched {
            ReplyView::Image
        } else {
            avatar_failed(url@)
        }),
{
    if fetched {
        Reply::Image
    } else {
        let message = String::from_str("Discord failed to supply avatar for url: ");
        Reply::Error(PublicError { status: 502, message: message.concat(url.as_str()) })
    }
}

/// The provider's endpoint for the user with the given id.
pub fn user_endpoint(id: u64) -> (r: String)
    ensures
        r@ == "https://discord.com/api/v10/users/"@ + decimal_of(id as nat),
{
    String::from_str("https://discord.com/api/v10/users/").concat(decimal_string(id).as_str())
}

/// The authorization header value for a bot token.
pub fn authorization(token: &str) -> (r: String)
    ensures
        r@ == "Bot "@ + token@,
{
    String::from_str("Bot ").concat(token)
}

/// An id asks for the same lookup whether the image or the profile is wanted:
/// a valid id leads to a lookup of the same user in either format.
pub proof fn lemma_same_user_for_both_formats(id: Seq<char>)
    ensures
        step_for("/avatar/"@ + id + ".png"@) == lookup_for(id, Format::Image),
        step_for("/avatar/"@ + id + ".json"@) == lookup_for(id, Format::Json),
        match parse_unsigned(id, u64::MAX as nat) {
            Some(n) if n > 0 => step_for("/avatar/"@ + id + ".png"@) == StepView::FetchUser(
                n as u64,
                Format::Image,
            ) && step_for("/avatar/"@ + id + ".json"@) == StepView::FetchUser(n as u64, Format::Json),
            _ => true,
        },
{
    lemma_route_id_independent_of_format(id);
}

/// Paths outside the routes, and avatar paths with an unknown suffix, give 404;
/// no path by itself gives 500.
pub proof fn lemma_bad_paths_give_404(p: Seq<char>)
    ensures
        route_of(p) is NotFound || route_of(p) is InvalidFormat ==> match step_for(p) {
            StepView::Respond(ReplyView::Error(status, _)) => status == 404,
            _ => false,
        },
        match step_for(p) {
            StepView::Respond(reply) => reply_status(reply) != 500,
            _ => true,
        },
{
}

/// A failed lookup, whatever its kind and whatever the format asked for, gives
/// 502 with the fixed message.
pub proof fn lemma_upstream_failure_gives_502(format: Format, e: UpstreamError)
    ensures
        user_step_for(format, Err(e)) == UserStepView::Respond(upstream_failed()),
        upstream_failed() == ReplyView::Error(502, "Discord failed to respond"@),
{
}

} // verus!
