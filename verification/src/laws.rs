//! What holds of the page over any course of calls and reports.
//!
//! A course is a sequence of events, each a call of a getter or a report.
//! Callers that run side by side are callers whose events interleave: every
//! law below holds of every interleaving.

use vstd::prelude::*;
use vstd::utf8::encode_utf8;
use crate::fetch::{info_url, pinned_text, profile_text, repos_url, stats_url, Reply};
use crate::formats::{
    about_text, account_text, email_entry, github_entry, icon_for, lang_color, lang_span,
    link_entries, links_text, repo_blocks, repos_text, Formatter,
};
use crate::strings::{has_date_part, joined};
use crate::art::PLACEHOLDER;
use crate::memo::Slot;
use crate::portfolio::{PortfolioView, StepView};
use crate::structs::{
    AboutView, AccountView, ConfigView, LinksView, RepoView, ReposView, UserInfoView,
    UserStatsView,
};
use crate::texts::{FETCH_GITHUB_ERROR, READ_JSON_ERROR};

verus! {

/// One thing that happens to the page.
pub enum Event {
    GetAbout,
    GetGithub,
    GetRepos,
    GetContacts,
    ConfigParsed(Option<ConfigView>),
    GithubFetched(Option<UserInfoView>, Option<UserStatsView>),
    ReposFetched(Option<Seq<RepoView>>),
}

/// The state after an event, and what the caller was answered if the event
/// was a call of a getter.
pub open spec fn react(state: PortfolioView, event: Event) -> (PortfolioView, Option<StepView>) {
    match event {
        Event::GetAbout => (state.get_about().0, Some(state.get_about().1)),
        Event::GetGithub => (state.get_github().0, Some(state.get_github().1)),
        Event::GetRepos => (state.get_repos().0, Some(state.get_repos().1)),
        Event::GetContacts => (state.get_contacts().0, Some(state.get_contacts().1)),
        Event::ConfigParsed(parsed) => (state.config_parsed(parsed), None),
        Event::GithubFetched(info, stats) => (state.github_fetched(info, stats), None),
        Event::ReposFetched(repos) => (state.repos_fetched(repos), None),
    }
}

/// The state after a course of events.
pub open spec fn after(state: PortfolioView, events: Seq<Event>) -> PortfolioView
    decreases events.len(),
{
    if events.len() == 0 {
        state
    } else {
        react(after(state, events.drop_last()), events.last()).0
    }
}

/// What the last event of a course was answered.
pub open spec fn last_answer(state: PortfolioView, events: Seq<Event>) -> Option<StepView> {
    if events.len() == 0 {
        None
    } else {
        react(after(state, events.drop_last()), events.last()).1
    }
}

/// How often a course of events led to an order to fetch the profile.
pub open spec fn profile_fetches(state: PortfolioView, events: Seq<Event>) -> nat
    decreases events.len(),
{
    if events.len() == 0 {
        0
    } else if last_answer(state, events) matches Some(StepView::FetchProfile { .. }) {
        profile_fetches(state, events.drop_last()) + 1
    } else {
        profile_fetches(state, events.drop_last())
    }
}

/// How often a course of events led to an order to fetch the repositories.
pub open spec fn repos_fetches(state: PortfolioView, events: Seq<Event>) -> nat
    decreases events.len(),
{
    if events.len() == 0 {
        0
    } else if last_answer(state, events) matches Some(StepView::FetchRepos { .. }) {
        repos_fetches(state, events.drop_last()) + 1
    } else {
        repos_fetches(state, events.drop_last())
    }
}

/// How often a course of events led to an order to read the configuration.
pub open spec fn config_parses(state: PortfolioView, events: Seq<Event>) -> nat
    decreases events.len(),
{
    if events.len() == 0 {
        0
    } else if last_answer(state, events) == Some(StepView::ParseConfig) {
        config_parses(state, events.drop_last()) + 1
    } else {
        config_parses(state, events.drop_last())
    }
}

/// Whether a cell has come at least as far as another: nothing that is in
/// flight becomes vacant again, and nothing settled changes.
pub open spec fn not_behind<T>(later: Slot<T>, earlier: Slot<T>) -> bool {
    match earlier {
        Slot::Vacant => true,
        Slot::InFlight => !(later is Vacant),
        Slot::Settled(_) => later == earlier,
    }
}

/// The same records give the same text: a formatter's output is determined
/// by the record's view, so two runs on equal records agree character for
/// character and byte for byte.
pub proof fn formatting_is_deterministic<T: Formatter>(a: T, b: T, first: String, second: String)
    requires
        a@ == b@,
        first@ == T::formatted(a@),
        second@ == T::formatted(b@),
    ensures
        first@ == second@,
        encode_utf8(first@) == encode_utf8(second@),
{
}

/// The state before anything was asked is well formed.
pub proof fn initial_is_well_formed()
    ensures
        PortfolioView::initial().wf(),
{
}

/// No event leads out of the well-formed states, and none sets a cell back.
pub proof fn every_event_keeps_order(state: PortfolioView, event: Event)
    ensures
        state.wf() ==> react(state, event).0.wf(),
        not_behind(react(state, event).0.config, state.config),
        not_behind(react(state, event).0.about, state.about),
        not_behind(react(state, event).0.github, state.github),
        not_behind(react(state, event).0.repos, state.repos),
        not_behind(react(state, event).0.contacts, state.contacts),
{
}

/// No course of events leads out of the well-formed states, and none sets a
/// cell back. In particular what is settled stays as it is: the
/// configuration as it was first read, absent included, and each text as it
/// was first made.
pub proof fn every_course_keeps_order(state: PortfolioView, events: Seq<Event>)
    ensures
        state.wf() ==> after(state, events).wf(),
        not_behind(after(state, events).config, state.config),
        not_behind(after(state, events).about, state.about),
        not_behind(after(state, events).github, state.github),
        not_behind(after(state, events).repos, state.repos),
        not_behind(after(state, events).contacts, state.contacts),
    decreases events.len(),
{
    if events.len() > 0 {
        every_course_keeps_order(state, events.drop_last());
        every_event_keeps_order(after(state, events.drop_last()), events.last());
    }
}

/// A getter that has answered with a text holds that text from then on.
pub proof fn an_answer_is_kept(state: PortfolioView)
    ensures
        state.get_about().1 matches StepView::Ready(text) ==> state.get_about().0.about
            == Slot::Settled(text),
        state.get_github().1 matches StepView::Ready(text) ==> state.get_github().0.github
            == Slot::Settled(text),
        state.get_repos().1 matches StepView::Ready(text) ==> state.get_repos().0.repos
            == Slot::Settled(text),
        state.get_contacts().1 matches StepView::Ready(text) ==> state.get_contacts().0.contacts
            == Slot::Settled(text),
{
}

/// Idempotence: once a getter's text is settled, every later call of that
/// getter answers with the same text, whatever happened in between.
pub proof fn a_settled_getter_repeats_itself(state: PortfolioView, events: Seq<Event>)
    requires
        events.len() > 0,
    ensures
        state.about matches Slot::Settled(text) ==> (events.last() == Event::GetAbout
            ==> last_answer(state, events) == Some(StepView::Ready(text))),
        state.github matches Slot::Settled(text) ==> (events.last() == Event::GetGithub
            ==> last_answer(state, events) == Some(StepView::Ready(text))),
        state.repos matches Slot::Settled(text) ==> (events.last() == Event::GetRepos
            ==> last_answer(state, events) == Some(StepView::Ready(text))),
        state.contacts matches Slot::Settled(text) ==> (events.last() == Event::GetContacts
            ==> last_answer(state, events) == Some(StepView::Ready(text))),
{
    every_course_keeps_order(state, events.drop_last());
}

/// At most one fetch of each kind and at most one reading of the
/// configuration are ever ordered, however many callers ask and in whatever
/// order; none is ordered once the cell it would fill is past vacant.
pub proof fn each_work_is_ordered_once(state: PortfolioView, events: Seq<Event>)
    ensures
        profile_fetches(state, events) <= 1,
        repos_fetches(state, events) <= 1,
        config_parses(state, events) <= 1,
        !(state.github is Vacant) ==> profile_fetches(state, events) == 0,
        !(state.repos is Vacant) ==> repos_fetches(state, events) == 0,
        !(state.config is Vacant) ==> config_parses(state, events) == 0,
        after(state, events).github is Vacant ==> profile_fetches(state, events) == 0,
        after(state, events).repos is Vacant ==> repos_fetches(state, events) == 0,
        after(state, events).config is Vacant ==> config_parses(state, events) == 0,
    decreases events.len(),
{
    if events.len() > 0 {
        each_work_is_ordered_once(state, events.drop_last());
        every_course_keeps_order(state, events.drop_last());
        every_event_keeps_order(after(state, events.drop_last()), events.last());
    }
}

/// The course in which the profile getter is called `callers` times in a
/// row.
pub open spec fn github_calls(callers: nat) -> Seq<Event> {
    Seq::new(callers, |i: int| Event::GetGithub)
}

/// The course in which the repository getter is called `callers` times in a
/// row.
pub open spec fn repos_calls(callers: nat) -> Seq<Event> {
    Seq::new(callers, |i: int| Event::GetRepos)
}

/// Single flight for the profile: of any number of callers that ask before
/// the answers are reported, the first is told to fetch and every other to
/// wait; once the answers are reported, any number of callers get one and
/// the same text.
pub proof fn profile_is_fetched_in_single_flight(
    state: PortfolioView,
    config: ConfigView,
    callers: nat,
    info: Option<UserInfoView>,
    stats: Option<UserStatsView>,
    later: nat,
)
    requires
        state.config == Slot::Settled(Some(config)),
        state.github is Vacant,
        callers > 0,
        later > 0,
    ensures
        last_answer(state, github_calls(callers)) == Some(
            if callers == 1 {
                StepView::FetchProfile {
                    info_url: info_url(config.github),
                    stats_url: stats_url(config.github),
                }
            } else {
                StepView::Wait
            },
        ),
        after(state, github_calls(callers)).github is InFlight,
        after(state, github_calls(callers)).config == state.config,
        profile_fetches(state, github_calls(callers)) == 1,
        last_answer(
            after(state, github_calls(callers)).github_fetched(info, stats),
            github_calls(later),
        ) == Some(StepView::Ready(profile_text(config, info, stats))),
    decreases callers,
{
    let calls = github_calls(callers);
    assert(calls.drop_last() =~= github_calls((callers - 1) as nat));
    if callers == 1 {
        assert(profile_fetches(state, calls.drop_last()) == 0);
    }
    if callers > 1 {
        profile_is_fetched_in_single_flight(
            state,
            config,
            (callers - 1) as nat,
            info,
            stats,
            later,
        );
    }
    let reported = after(state, calls).github_fetched(info, stats);
    assert(github_calls(later).last() == Event::GetGithub);
    a_settled_getter_repeats_itself(reported, github_calls(later));
}

/// Single flight for the repositories, as for the profile.
pub proof fn repos_are_fetched_in_single_flight(
    state: PortfolioView,
    config: ConfigView,
    callers: nat,
    repos: Option<Seq<RepoView>>,
    later: nat,
)
    requires
        state.config == Slot::Settled(Some(config)),
        state.repos is Vacant,
        callers > 0,
        later > 0,
    ensures
        last_answer(state, repos_calls(callers)) == Some(
            if callers == 1 {
                StepView::FetchRepos { url: repos_url(config.github) }
            } else {
                StepView::Wait
            },
        ),
        after(state, repos_calls(callers)).repos is InFlight,
        after(state, repos_calls(callers)).config == state.config,
        repos_fetches(state, repos_calls(callers)) == 1,
        last_answer(
            after(state, repos_calls(callers)).repos_fetched(repos),
            repos_calls(later),
        ) == Some(StepView::Ready(pinned_text(config, repos))),
    decreases callers,
{
    let calls = repos_calls(callers);
    assert(calls.drop_last() =~= repos_calls((callers - 1) as nat));
    if callers == 1 {
        assert(repos_fetches(state, calls.drop_last()) == 0);
    }
    if callers > 1 {
        repos_are_fetched_in_single_flight(state, config, (callers - 1) as nat, repos, later);
    }
    let reported = after(state, calls).repos_fetched(repos);
    assert(repos_calls(later).last() == Event::GetRepos);
    a_settled_getter_repeats_itself(reported, repos_calls(later));
}

/// A list written out begins as its first part does.
pub proof fn joined_begins_with_first(parts: Seq<Seq<char>>, sep: Seq<char>, at: int)
    requires
        parts.len() >= 1,
        0 <= at < parts[0].len(),
    ensures
        joined(parts, sep).len() > at,
        joined(parts, sep)[at] == parts[0][at],
    decreases parts.len(),
{
    if parts.len() > 1 {
        joined_begins_with_first(parts.drop_last(), sep, at);
    }
}

/// No record is written as one of the two error texts, so what a getter
/// shows tells content from failure.
pub proof fn content_is_no_error(
    about: AboutView,
    account: AccountView,
    repos: ReposView,
    links: LinksView,
)
    ensures
        about_text(about) != READ_JSON_ERROR@,
        about_text(about) != FETCH_GITHUB_ERROR@,
        account_text(account) != READ_JSON_ERROR@,
        account_text(account) != FETCH_GITHUB_ERROR@,
        repos_text(repos) != READ_JSON_ERROR@,
        repos_text(repos) != FETCH_GITHUB_ERROR@,
        links_text(links) != READ_JSON_ERROR@,
        links_text(links) != FETCH_GITHUB_ERROR@,
{
    reveal_strlit(r#"<span class="rd semibold">Error reading config.json</span>"#);
    reveal_strlit(r#"<span class="rd semibold">Error fetching data from Github.</span>"#);
    assert(READ_JSON_ERROR@[0] == '<' && READ_JSON_ERROR@[1] == 's');
    assert(FETCH_GITHUB_ERROR@[0] == '<' && FETCH_GITHUB_ERROR@[1] == 's');

    reveal_strlit(
        "\n\n\n<div class=\"row\" style=\"display: flex; flex-direction: row; align-items: center; justify-content: center;\"> \n<div class=\"acols\">",
    );
    assert(about_text(about)[0] == '\n');

    reveal_strlit("<div class=\"row\">\n<div class=\"gcols\">");
    assert(account_text(account)[1] == 'd');

    reveal_strlit("  <a href=\"https://github.com/");
    assert(github_entry(links.github)[0] == ' ');
    assert(link_entries(links)[0] == github_entry(links.github));
    joined_begins_with_first(link_entries(links), Seq::empty(), 0);
    assert(links_text(links)[0] == ' ');

    reveal_strlit("<div class=\"row\">\n<div class=\"rcols\">");
    reveal_strlit("\n");
    let blocks = repo_blocks(repos.repos);
    if blocks.len() == 0 {
        assert(repos_text(repos)[0] == '\n');
    } else {
        assert(blocks[0][1] == 'd');
        joined_begins_with_first(blocks, "\n"@, 1);
        assert(repos_text(repos)[1] == 'd');
    }
}

/// Half a profile is no profile: the text is the fetch error exactly where
/// an answer was not accepted or no account can be made of the two.
pub proof fn a_profile_needs_both_answers(
    config: ConfigView,
    info: Option<UserInfoView>,
    stats: Option<UserStatsView>,
)
    ensures
        profile_text(config, info, stats) == FETCH_GITHUB_ERROR@ <==> !(info is Some
            && stats is Some && has_date_part(info->0.created_at)),
{
    if info is Some && stats is Some && has_date_part(info->0.created_at) {
        let account = AccountView {
            username: config.github,
            langs: config.about.langs,
            info: info->0,
            stats: stats->0,
        };
        content_is_no_error(
            config.about,
            account,
            ReposView { username: config.github, repos: Seq::empty() },
            config.links,
        );
    }
}

/// The repository text is the fetch error exactly where the answer was not
/// accepted.
pub proof fn a_list_needs_its_answer(config: ConfigView, repos: Option<Seq<RepoView>>)
    ensures
        pinned_text(config, repos) == FETCH_GITHUB_ERROR@ <==> repos is None,
{
    if repos is Some {
        content_is_no_error(
            config.about,
            AccountView {
                username: config.github,
                langs: config.about.langs,
                info: arbitrary(),
                stats: arbitrary(),
            },
            ReposView { username: config.github, repos: repos->0 },
            config.links,
        );
    }
}

/// The getters do not stand in each other's way: a getter changes no text
/// but its own.
pub proof fn getters_keep_to_their_own(state: PortfolioView)
    ensures
        state.get_about().0.github == state.github,
        state.get_about().0.repos == state.repos,
        state.get_about().0.contacts == state.contacts,
        state.get_github().0.about == state.about,
        state.get_github().0.repos == state.repos,
        state.get_github().0.contacts == state.contacts,
        state.get_repos().0.about == state.about,
        state.get_repos().0.github == state.github,
        state.get_repos().0.contacts == state.contacts,
        state.get_contacts().0.about == state.about,
        state.get_contacts().0.github == state.github,
        state.get_contacts().0.repos == state.repos,
{
}

/// An answer is accepted only with a body and a success status.
pub proof fn what_is_accepted<T>(reply: Reply<T>)
    ensures
        reply.accepted() is Some <==> (reply matches Reply::Answered { status, body }
            && 200 <= status <= 299 && body is Some),
{
}

/// Without a configuration every getter answers with the configuration
/// error, at once.
pub proof fn no_config_shows_in_every_getter(state: PortfolioView)
    requires
        state.wf(),
        state.config == Slot::Settled(None::<ConfigView>),
    ensures
        state.get_about().1 == StepView::Ready(READ_JSON_ERROR@),
        state.get_github().1 == StepView::Ready(READ_JSON_ERROR@),
        state.get_repos().1 == StepView::Ready(READ_JSON_ERROR@),
        state.get_contacts().1 == StepView::Ready(READ_JSON_ERROR@),
{
}

/// Without a configuration no event is answered with an order to fetch.
pub proof fn no_config_no_order(state: PortfolioView, event: Event)
    requires
        state.config == Slot::Settled(None::<ConfigView>),
    ensures
        !(react(state, event).1 matches Some(StepView::FetchProfile { .. })),
        !(react(state, event).1 matches Some(StepView::FetchRepos { .. })),
{
}

/// Without a configuration no fetch is ever ordered.
pub proof fn no_config_no_fetch(state: PortfolioView, events: Seq<Event>)
    requires
        state.config == Slot::Settled(None::<ConfigView>),
    ensures
        profile_fetches(state, events) == 0,
        repos_fetches(state, events) == 0,
    decreases events.len(),
{
    if events.len() > 0 {
        no_config_no_fetch(state, events.drop_last());
        every_course_keeps_order(state, events.drop_last());
        no_config_no_order(after(state, events.drop_last()), events.last());
    }
}

/// A language without a colour is written unstyled, and a language without a
/// drawing gets the placeholder.
pub proof fn unlisted_languages_fall_back(name: Seq<char>)
    ensures
        lang_color(name) is None ==> lang_span(name) == "<span>"@ + name + "</span>"@,
        name != "Rust"@ && name != "Python"@ && name != "Jupyter Notebook"@ && name != "CSS"@
            && name != "HTML"@ && name != "JavaScript"@ ==> icon_for(name) == PLACEHOLDER@,
{
}

/// The contact list has the GitHub entry first and an entry more for each
/// address that is given.
pub proof fn links_are_listed_as_given(links: LinksView)
    ensures
        link_entries(links).len() == 1 + (if links.email is Some {
            1nat
        } else {
            0
        }) + (if links.linkedin is Some {
            1nat
        } else {
            0
        }) + (if links.twitter is Some {
            1nat
        } else {
            0
        }),
        link_entries(links)[0] == github_entry(links.github),
        links.email matches Some(address) ==> link_entries(links)[1] == email_entry(address),
{
}

/// With a GitHub handle and an e-mail address alone, the contact list is the
/// GitHub entry followed by the e-mail entry, and nothing else.
pub proof fn github_and_email_alone(links: LinksView)
    requires
        links.email is Some,
        links.linkedin is None,
        links.twitter is None,
    ensures
        link_entries(links) == seq![github_entry(links.github), email_entry(links.email->0)],
        links_text(links) == github_entry(links.github) + email_entry(links.email->0),
{
    let entries = seq![github_entry(links.github), email_entry(links.email->0)];
    assert(link_entries(links) =~= entries);
    assert(entries.drop_last() =~= seq![github_entry(links.github)]);
    reveal_with_fuel(crate::strings::joined, 3);
    assert(links_text(links) =~= github_entry(links.github) + email_entry(links.email->0));
}

} // verus!
