use termfolio::fetch::{fetch_github, fetch_repos, github_requests, repos_request, Reply};
use termfolio::formats::Formatter;
use termfolio::structs::{
    About, Account, Config, Language, Links, Repo, Repos, UserInfo, UserStats,
};
use termfolio::texts::{FETCH_GITHUB_ERROR, READ_JSON_ERROR};

fn s(text: &str) -> String {
    String::from(text)
}

fn config() -> Config {
    Config {
        about: About {
            name: s("Ada"),
            intro: s("Hello"),
            interests: vec![],
            langs: vec![s("Rust"), s("Zig")],
            experience: vec![],
            education: vec![],
        },
        github: s("ada"),
        links: Links { github: s("ada"), email: None, linkedin: None, twitter: None },
    }
}

fn info() -> UserInfo {
    UserInfo {
        name: Some(s("Ada")),
        bio: Some(s("First programmer")),
        company: None,
        location: Some(s("London")),
        public_repos: 12,
        followers: 34,
        following: 5,
        created_at: s("2011-01-25T18:44:36Z"),
    }
}

fn stats() -> UserStats {
    UserStats { stars: 99, forks: 11 }
}

fn ok<T>(body: T) -> Reply<T> {
    Reply::Answered { status: 200, body: Some(body) }
}

fn repo() -> Repo {
    Repo {
        name: s("engine"),
        repo: s("https://github.com/ada/engine"),
        description: s("An engine"),
        language: Language { name: s("Rust"), color: s("#dea584") },
        stars: 5,
        forks: 1,
    }
}

#[test]
fn the_sentinels() {
    assert_eq!(READ_JSON_ERROR, r#"<span class="rd semibold">Error reading config.json</span>"#);
    assert_eq!(
        FETCH_GITHUB_ERROR,
        r#"<span class="rd semibold">Error fetching data from Github.</span>"#
    );
}

#[test]
fn the_addresses_carry_the_handle() {
    let (info_url, stats_url) = github_requests("ada");
    assert_eq!(info_url, "https://api.github.com/users/ada");
    assert_eq!(stats_url, "https://api.github-star-counter.workers.dev/user/ada");
    assert_eq!(repos_request("ada"), "https://gh-pinned-repos-api.ysnirix.xyz/api/get/?username=ada");
    assert_eq!(repos_request(""), "https://gh-pinned-repos-api.ysnirix.xyz/api/get/?username=");
}

#[test]
fn success_is_a_status_from_200_to_299() {
    for status in [200u16, 201, 204, 250, 299] {
        assert_eq!(Reply::Answered { status, body: Some(7u8) }.accept(), Some(7));
    }
    for status in [0u16, 1, 99, 100, 101, 199, 300, 301, 404, 500, 999, 1000, 2000, u16::MAX] {
        assert_eq!(Reply::Answered { status, body: Some(7u8) }.accept(), None);
    }
}

#[test]
fn nothing_is_accepted_without_a_body_or_an_answer() {
    assert_eq!(Reply::<u8>::Failed.accept(), None);
    assert_eq!(Reply::<u8>::Answered { status: 200, body: None }.accept(), None);
}

#[test]
fn profile_of_two_good_answers() {
    let config = config();
    let expected =
        Account::new(s("ada"), vec![s("Rust"), s("Zig")], info(), stats()).unwrap().formatter();
    let text = fetch_github(Some(&config), ok(info()), ok(stats()));
    assert_eq!(text, expected);
    assert!(text.contains("<span class=\"grn semibold\">ada</span>@"));
    assert!(text.contains("Created on:</span> 2011-01-25\n"));
    assert!(text.contains("Stars:</span> 99\n"));
}

#[test]
fn profile_with_the_stats_failing() {
    let config = config();
    assert_eq!(fetch_github(Some(&config), ok(info()), Reply::Failed), FETCH_GITHUB_ERROR);
    assert_eq!(
        fetch_github(Some(&config), ok(info()), Reply::Answered { status: 503, body: Some(stats()) }),
        FETCH_GITHUB_ERROR
    );
    assert_eq!(
        fetch_github(Some(&config), ok(info()), Reply::Answered { status: 200, body: None }),
        FETCH_GITHUB_ERROR
    );
}

#[test]
fn profile_with_the_info_failing() {
    let config = config();
    assert_eq!(fetch_github(Some(&config), Reply::Failed, ok(stats())), FETCH_GITHUB_ERROR);
    assert_eq!(
        fetch_github(Some(&config), Reply::Answered { status: 404, body: Some(info()) }, ok(stats())),
        FETCH_GITHUB_ERROR
    );
    assert_eq!(
        fetch_github(Some(&config), Reply::Answered { status: 200, body: None }, ok(stats())),
        FETCH_GITHUB_ERROR
    );
}

#[test]
fn profile_with_both_failing() {
    let config = config();
    assert_eq!(fetch_github(Some(&config), Reply::Failed, Reply::Failed), FETCH_GITHUB_ERROR);
}

#[test]
fn profile_with_a_timestamp_without_date() {
    let config = config();
    let mut info = info();
    info.created_at = s("soon");
    assert_eq!(fetch_github(Some(&config), ok(info), ok(stats())), FETCH_GITHUB_ERROR);
}

#[test]
fn profile_without_a_configuration() {
    assert_eq!(fetch_github(None, ok(info()), ok(stats())), READ_JSON_ERROR);
    assert_eq!(fetch_github(None, Reply::Failed, Reply::Failed), READ_JSON_ERROR);
}

#[test]
fn repos_of_a_good_answer() {
    let config = config();
    let expected = Repos { username: s("ada"), repos: vec![repo(), repo()] }.formatter();
    assert_eq!(fetch_repos(Some(&config), ok(vec![repo(), repo()])), expected);
}

#[test]
fn repos_of_an_empty_list() {
    let config = config();
    let expected = Repos { username: s("ada"), repos: vec![] }.formatter();
    assert_eq!(fetch_repos(Some(&config), ok(vec![])), expected);
}

#[test]
fn repos_with_the_request_failing() {
    let config = config();
    assert_eq!(fetch_repos(Some(&config), Reply::Failed), FETCH_GITHUB_ERROR);
    assert_eq!(
        fetch_repos(Some(&config), Reply::Answered { status: 500, body: Some(vec![repo()]) }),
        FETCH_GITHUB_ERROR
    );
    assert_eq!(
        fetch_repos(Some(&config), Reply::Answered { status: 200, body: None }),
        FETCH_GITHUB_ERROR
    );
}

#[test]
fn repos_without_a_configuration() {
    assert_eq!(fetch_repos(None, ok(vec![repo()])), READ_JSON_ERROR);
    assert_eq!(fetch_repos(None, Reply::Failed), READ_JSON_ERROR);
}
