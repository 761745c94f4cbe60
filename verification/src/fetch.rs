//! What is asked of the outside services, and what is made of their answers.
//!
//! Nothing here performs a request. The caller sends what `github_requests`
//! and `repos_request` name and hands each answer back as a `Reply`.

use vstd::prelude::*;
use crate::formats::{account_page, account_text, repos_page, repos_text};
use crate::strings::{copy_strings, has_date_part, opt_view, views};
use crate::structs::{
    Account, AccountView, Config, ConfigView, Repo, RepoView, Repos, ReposView, UserInfo,
    UserInfoView, UserStats, UserStatsView,
};
use crate::texts::{FETCH_GITHUB_ERROR, READ_JSON_ERROR};

verus! {

/// How one request ended.
#[derive(Clone, Debug, PartialEq, Eq)]
pub enum Reply<T> {
    /// No answer came back.
    Failed,
    /// The service answered with this status. `body` is what the body was
    /// decoded to, or nothing where it could not be decoded.
    Answered { status: u16, body: Option<T> },
}

impl<T> Reply<T> {
    /// The decoded body of an answer with a success status; nothing for any
    /// other outcome.
    pub open spec fn accepted(self) -> Option<T> {
        match self {
            Reply::Failed => None,
            Reply::Answered { status, body } => if 200 <= status <= 299 {
                body
            } else {
                None
            },
        }
    }

    /// Takes the decoded body out of an answer with a success status.
    pub fn accept(self) -> (body: Option<T>)
        ensures
            body == self.accepted(),
    {
        match self {
            Reply::Failed => None,
            Reply::Answered { status, body } => if is_success(status) {
                body
            } else {
                None
            },
        }
    }
}

/// `StatusCode::is_success` of reqwest, asked of the status with the given
/// number: true from 200 to 299. A number that `StatusCode::from_u16` turns
/// down (under 100 or over 999) is no status and so no success.
#[verifier::external_body]
fn is_success(status: u16) -> (ok: bool)
    ensures
        ok == (200 <= status <= 299),
{
    match reqwest::StatusCode::from_u16(status) {
        Ok(code) => code.is_success(),
        Err(_) => false,
    }
}

/// Where a profile's directory record is asked for.
pub open spec fn info_url(handle: Seq<char>) -> Seq<char> {
    "https://api.github.com/users/"@ + handle
}

/// Where a profile's star and fork totals are asked for.
pub open spec fn stats_url(handle: Seq<char>) -> Seq<char> {
    "https://api.github-star-counter.workers.dev/user/"@ + handle
}

/// Where a profile's pinned repositories are asked for.
pub open spec fn repos_url(handle: Seq<char>) -> Seq<char> {
    "https://gh-pinned-repos-api.ysnirix.xyz/api/get/?username="@ + handle
}

/// The profile summary for two accepted bodies, or the fetch error where
/// either is missing or no account can be made of them.
pub open spec fn profile_text(
    config: ConfigView,
    info: Option<UserInfoView>,
    stats: Option<UserStatsView>,
) -> Seq<char> {
    match (info, stats) {
        (Some(info), Some(stats)) => if has_date_part(info.created_at) {
            account_text(
                AccountView { username: config.github, langs: config.about.langs, info, stats },
            )
        } else {
            FETCH_GITHUB_ERROR@
        },
        _ => FETCH_GITHUB_ERROR@,
    }
}

/// What the profile getter ends up with: the configuration error without a
/// configuration, else what `profile_text` says.
pub open spec fn github_text(
    config: Option<ConfigView>,
    info: Option<UserInfoView>,
    stats: Option<UserStatsView>,
) -> Seq<char> {
    match config {
        Some(config) => profile_text(config, info, stats),
        None => READ_JSON_ERROR@,
    }
}

/// The repository list for an accepted body, or the fetch error without one.
pub open spec fn pinned_text(config: ConfigView, repos: Option<Seq<RepoView>>) -> Seq<char> {
    match repos {
        Some(repos) => repos_text(ReposView { username: config.github, repos }),
        None => FETCH_GITHUB_ERROR@,
    }
}

/// What the repository getter ends up with: the configuration error without
/// a configuration, else what `pinned_text` says.
pub open spec fn repos_outcome(config: Option<ConfigView>, repos: Option<Seq<RepoView>>) -> Seq<
    char,
> {
    match config {
        Some(config) => pinned_text(config, repos),
        None => READ_JSON_ERROR@,
    }
}

/// The view of a list that may be missing.
pub open spec fn opt_views<T: View>(items: Option<Vec<T>>) -> Option<Seq<T::V>> {
    match items {
        Some(list) => Some(views(list@)),
        None => None,
    }
}

/// The two addresses to ask for a profile: first the directory record, then
/// the star and fork totals.
pub fn github_requests(handle: &str) -> (urls: (String, String))
    ensures
        urls.0@ == info_url(handle@),
        urls.1@ == stats_url(handle@),
{
    let mut info = String::from_str("https://api.github.com/users/");
    info.append(handle);
    let mut stats = String::from_str("https://api.github-star-counter.workers.dev/user/");
    stats.append(handle);
    (info, stats)
}

/// The address to ask for a profile's pinned repositories.
pub fn repos_request(handle: &str) -> (url: String)
    ensures
        url@ == repos_url(handle@),
{
    let mut url = String::from_str("https://gh-pinned-repos-api.ysnirix.xyz/api/get/?username=");
    url.append(handle);
    url
}

/// Makes the profile text of the answers to the two profile requests. Both
/// must have been accepted: a summary is never written with a part missing.
pub fn fetch_github(config: Option<&Config>, info: Reply<UserInfo>, stats: Reply<UserStats>) -> (text:
    String)
    ensures
        text@ == github_text(
            opt_view(config),
            opt_view(info.accepted()),
            opt_view(stats.accepted()),
        ),
{
    match config {
        Some(config) => {
            match (info.accept(), stats.accept()) {
                (Some(info), Some(stats)) => {
                    let account = Account::new(
                        config.github.clone(),
                        copy_strings(&config.about.langs),
                        info,
                        stats,
                    );
                    match account {
                        Some(account) => account_page(&account),
                        None => String::from_str(FETCH_GITHUB_ERROR),
                    }
                },
                _ => String::from_str(FETCH_GITHUB_ERROR),
            }
        },
        None => String::from_str(READ_JSON_ERROR),
    }
}

/// Makes the repository text of the answer to the repository request.
pub fn fetch_repos(config: Option<&Config>, reply: Reply<Vec<Repo>>) -> (text: String)
    ensures
        text@ == repos_outcome(opt_view(config), opt_views(reply.accepted())),
{
    match config {
        Some(config) => {
            match reply.accept() {
                Some(repos) => {
                    let repos = Repos { username: config.github.clone(), repos };
                    repos_page(&repos)
                },
                None => String::from_str(FETCH_GITHUB_ERROR),
            }
        },
        None => String::from_str(READ_JSON_ERROR),
    }
}

} // verus!
