//! The page's state and its four getters.
//!
//! A `Portfolio` holds the configuration and the four texts, each in a cell
//! that is filled once. A getter never parses, fetches or waits itself: it
//! answers with a `Step` that either carries the text or says what the
//! caller is to do before it asks again. The caller reports what it has done
//! with `config_parsed`, `github_fetched` or `repos_fetched`.

use vstd::prelude::*;
use crate::fetch::{
    fetch_github, fetch_repos, github_requests, info_url, opt_views, profile_text, pinned_text,
    repos_request, repos_url, stats_url, Reply,
};
use crate::formats::{about_page, about_text, links_page, links_text};
use crate::memo::{Memoizer, Slot, Turn};
use crate::strings::opt_view;
use crate::structs::{
    Config, ConfigView, Repo, RepoView, UserInfo, UserInfoView, UserStats, UserStatsView,
};
use crate::texts::READ_JSON_ERROR;

verus! {

/// What a getter answers.
#[derive(Clone, Debug, PartialEq, Eq)]
pub enum Step {
    /// The text to show.
    Ready(String),
    /// Read the configuration, report it with `config_parsed`, ask again.
    ParseConfig,
    /// Send both requests, report the answers with `github_fetched`, ask
    /// again.
    FetchProfile { info_url: String, stats_url: String },
    /// Send the request, report the answer with `repos_fetched`, ask again.
    FetchRepos { url: String },
    /// Another caller is at work on what is needed: ask again once it has
    /// reported.
    Wait,
}

pub enum StepView {
    Ready(Seq<char>),
    ParseConfig,
    FetchProfile { info_url: Seq<char>, stats_url: Seq<char> },
    FetchRepos { url: Seq<char> },
    Wait,
}

impl View for Step {
    type V = StepView;

    open spec fn view(&self) -> StepView {
        match self {
            Step::Ready(text) => StepView::Ready(text@),
            Step::ParseConfig => StepView::ParseConfig,
            Step::FetchProfile { info_url, stats_url } => StepView::FetchProfile {
                info_url: info_url@,
                stats_url: stats_url@,
            },
            Step::FetchRepos { url } => StepView::FetchRepos { url: url@ },
            Step::Wait => StepView::Wait,
        }
    }
}

/// The biography, or the configuration error without a configuration.
pub open spec fn about_outcome(config: Option<ConfigView>) -> Seq<char> {
    match config {
        Some(config) => about_text(config.about),
        None => READ_JSON_ERROR@,
    }
}

/// The contact list, or the configuration error without a configuration.
pub open spec fn contacts_outcome(config: Option<ConfigView>) -> Seq<char> {
    match config {
        Some(config) => links_text(config.links),
        None => READ_JSON_ERROR@,
    }
}

/// The state of the page as values: the configuration as it was read, and
/// the four texts.
pub struct PortfolioView {
    pub config: Slot<Option<ConfigView>>,
    pub about: Slot<Seq<char>>,
    pub github: Slot<Seq<char>>,
    pub repos: Slot<Seq<char>>,
    pub contacts: Slot<Seq<char>>,
}

impl PortfolioView {
    /// The state before anything was asked.
    pub open spec fn initial() -> PortfolioView {
        PortfolioView {
            config: Slot::Vacant,
            about: Slot::Vacant,
            github: Slot::Vacant,
            repos: Slot::Vacant,
            contacts: Slot::Vacant,
        }
    }

    /// Whether a text made from the configuration is what the configuration
    /// gives: such a text is there only once the configuration is, and is
    /// never in flight.
    pub open spec fn made_from_config(
        self,
        cell: Slot<Seq<char>>,
        outcome: spec_fn(Option<ConfigView>) -> Seq<char>,
    ) -> bool {
        match cell {
            Slot::Vacant => true,
            Slot::InFlight => false,
            Slot::Settled(text) => match self.config {
                Slot::Settled(config) => text == outcome(config),
                _ => false,
            },
        }
    }

    /// Whether a fetched text fits the configuration: a fetch is under way
    /// only with a configuration, and without one the text is the
    /// configuration error.
    pub open spec fn fetched_with_config(self, cell: Slot<Seq<char>>) -> bool {
        match cell {
            Slot::Vacant => true,
            Slot::InFlight => self.config matches Slot::Settled(Some(_)),
            Slot::Settled(text) => match self.config {
                Slot::Settled(Some(_)) => true,
                Slot::Settled(None) => text == READ_JSON_ERROR@,
                _ => false,
            },
        }
    }

    /// What holds of every state that the getters and reports lead to.
    pub open spec fn wf(self) -> bool {
        &&& self.made_from_config(self.about, |c: Option<ConfigView>| about_outcome(c))
        &&& self.made_from_config(self.contacts, |c: Option<ConfigView>| contacts_outcome(c))
        &&& self.fetched_with_config(self.github)
        &&& self.fetched_with_config(self.repos)
    }

    /// The biography getter: the held text; else, once the configuration is
    /// there, the text made from it, which is held from then on.
    pub open spec fn get_about(self) -> (PortfolioView, StepView) {
        match self.about {
            Slot::Settled(text) => (self, StepView::Ready(text)),
            _ => match self.config {
                Slot::Vacant => (
                    PortfolioView { config: Slot::InFlight, ..self },
                    StepView::ParseConfig,
                ),
                Slot::InFlight => (self, StepView::Wait),
                Slot::Settled(config) => (
                    PortfolioView { about: Slot::Settled(about_outcome(config)), ..self },
                    StepView::Ready(about_outcome(config)),
                ),
            },
        }
    }

    /// The contact getter: as the biography getter, for the contact list.
    pub open spec fn get_contacts(self) -> (PortfolioView, StepView) {
        match self.contacts {
            Slot::Settled(text) => (self, StepView::Ready(text)),
            _ => match self.config {
                Slot::Vacant => (
                    PortfolioView { config: Slot::InFlight, ..self },
                    StepView::ParseConfig,
                ),
                Slot::InFlight => (self, StepView::Wait),
                Slot::Settled(config) => (
                    PortfolioView { contacts: Slot::Settled(contacts_outcome(config)), ..self },
                    StepView::Ready(contacts_outcome(config)),
                ),
            },
        }
    }

    /// The profile getter: the held text; else, with a configuration, the
    /// order to fetch for the first caller and to wait for every other;
    /// without one, the configuration error, held from then on.
    pub open spec fn get_github(self) -> (PortfolioView, StepView) {
        match self.github {
            Slot::Settled(text) => (self, StepView::Ready(text)),
            Slot::InFlight => (self, StepView::Wait),
            Slot::Vacant => match self.config {
                Slot::Vacant => (
                    PortfolioView { config: Slot::InFlight, ..self },
                    StepView::ParseConfig,
                ),
                Slot::InFlight => (self, StepView::Wait),
                Slot::Settled(None) => (
                    PortfolioView { github: Slot::Settled(READ_JSON_ERROR@), ..self },
                    StepView::Ready(READ_JSON_ERROR@),
                ),
                Slot::Settled(Some(config)) => (
                    PortfolioView { github: Slot::InFlight, ..self },
                    StepView::FetchProfile {
                        info_url: info_url(config.github),
                        stats_url: stats_url(config.github),
                    },
                ),
            },
        }
    }

    /// The repository getter: as the profile getter, with one request.
    pub open spec fn get_repos(self) -> (PortfolioView, StepView) {
        match self.repos {
            Slot::Settled(text) => (self, StepView::Ready(text)),
            Slot::InFlight => (self, StepView::Wait),
            Slot::Vacant => match self.config {
                Slot::Vacant => (
                    PortfolioView { config: Slot::InFlight, ..self },
                    StepView::ParseConfig,
                ),
                Slot::InFlight => (self, StepView::Wait),
                Slot::Settled(None) => (
                    PortfolioView { repos: Slot::Settled(READ_JSON_ERROR@), ..self },
                    StepView::Ready(READ_JSON_ERROR@),
                ),
                Slot::Settled(Some(config)) => (
                    PortfolioView { repos: Slot::InFlight, ..self },
                    StepView::FetchRepos { url: repos_url(config.github) },
                ),
            },
        }
    }

    /// The report of a parse: its outcome, absent included, stays for good
    /// unless one is there already.
    pub open spec fn config_parsed(self, parsed: Option<ConfigView>) -> PortfolioView {
        match self.config {
            Slot::Settled(_) => self,
            _ => PortfolioView { config: Slot::Settled(parsed), ..self },
        }
    }

    /// The report of the two profile answers, as the bodies accepted of
    /// them: it settles the profile text if a fetch was under way.
    pub open spec fn github_fetched(
        self,
        info: Option<UserInfoView>,
        stats: Option<UserStatsView>,
    ) -> PortfolioView {
        match (self.github, self.config) {
            (Slot::InFlight, Slot::Settled(Some(config))) => PortfolioView {
                github: Slot::Settled(profile_text(config, info, stats)),
                ..self
            },
            _ => self,
        }
    }

    /// The report of the repository answer, as the body accepted of it: it
    /// settles the repository text if a fetch was under way.
    pub open spec fn repos_fetched(self, repos: Option<Seq<RepoView>>) -> PortfolioView {
        match (self.repos, self.config) {
            (Slot::InFlight, Slot::Settled(Some(config))) => PortfolioView {
                repos: Slot::Settled(pinned_text(config, repos)),
                ..self
            },
            _ => self,
        }
    }
}

/// The text that a cell of strings holds.
pub open spec fn text_slot(slot: Slot<String>) -> Slot<Seq<char>> {
    match slot {
        Slot::Vacant => Slot::Vacant,
        Slot::InFlight => Slot::InFlight,
        Slot::Settled(text) => Slot::Settled(text@),
    }
}

/// The configuration that a cell holds, as values.
pub open spec fn config_slot(slot: Slot<Option<Config>>) -> Slot<Option<ConfigView>> {
    match slot {
        Slot::Vacant => Slot::Vacant,
        Slot::InFlight => Slot::InFlight,
        Slot::Settled(config) => Slot::Settled(opt_view(config)),
    }
}

/// The state of the page: the configuration as it was read, and the four
/// texts, each in a cell of its own.
pub struct Portfolio {
    config: Memoizer<Option<Config>>,
    about: Memoizer<String>,
    github: Memoizer<String>,
    repos: Memoizer<String>,
    contacts: Memoizer<String>,
}

impl View for Portfolio {
    type V = PortfolioView;

    closed spec fn view(&self) -> PortfolioView {
        PortfolioView {
            config: config_slot(self.config.slot()),
            about: text_slot(self.about.slot()),
            github: text_slot(self.github.slot()),
            repos: text_slot(self.repos.slot()),
            contacts: text_slot(self.contacts.slot()),
        }
    }
}

impl Portfolio {
    #[verifier::type_invariant]
    spec fn well_formed(self) -> bool {
        self@.wf()
    }

    /// A page of which nothing is known yet.
    pub fn new() -> (site: Portfolio)
        ensures
            site@ == PortfolioView::initial(),
            site@.wf(),
    {
        Portfolio {
            config: Memoizer::new(),
            about: Memoizer::new(),
            github: Memoizer::new(),
            repos: Memoizer::new(),
            contacts: Memoizer::new(),
        }
    }

    /// The configuration, once it has been read and was found in order.
    pub fn config(&self) -> (config: Option<&Config>)
        ensures
            match config {
                Some(found) => self@.config == Slot::Settled(Some(found@)),
                None => !(self@.config matches Slot::Settled(Some(_))),
            },
    {
        match self.config.get() {
            Some(Some(found)) => Some(found),
            _ => None,
        }
    }
}

/// Reads the configuration cell on behalf of a getter: nothing where the
/// configuration is settled, else the step that the getter answers with.
fn read_config(site: &mut Portfolio) -> (step: Option<Step>)
    ensures
        match old(site)@.config {
            Slot::Vacant => step == Some(Step::ParseConfig) && final(site)@ == (PortfolioView {
                config: Slot::InFlight,
                ..old(site)@
            }),
            Slot::InFlight => step == Some(Step::Wait) && final(site)@ == old(site)@,
            Slot::Settled(_) => step is None && final(site)@ == old(site)@,
        },
{
    proof {
        use_type_invariant(&*site);
    }
    match site.config.request() {
        Turn::Compute => Some(Step::ParseConfig),
        Turn::Wait => Some(Step::Wait),
        Turn::Done => None,
    }
}

/// The biography. It is made once, from the configuration, and the same text
/// is returned ever after.
pub fn get_about(site: &mut Portfolio) -> (step: Step)
    ensures
        (final(site)@, step@) == old(site)@.get_about(),
        final(site)@.wf(),
        step is Ready || step is ParseConfig || step is Wait,
{
    proof {
        use_type_invariant(&*site);
    }
    if let Some(text) = site.about.get() {
        return Step::Ready(text.clone());
    }
    if let Some(step) = read_config(site) {
        return step;
    }
    let text = match site.config.get() {
        Some(Some(config)) => about_page(&config.about),
        _ => String::from_str(READ_JSON_ERROR),
    };
    site.about.resolve(text.clone());
    Step::Ready(text)
}

/// The contact list. It is made once, from the configuration, and the same
/// text is returned ever after.
pub fn get_contacts(site: &mut Portfolio) -> (step: Step)
    ensures
        (final(site)@, step@) == old(site)@.get_contacts(),
        final(site)@.wf(),
        step is Ready || step is ParseConfig || step is Wait,
{
    proof {
        use_type_invariant(&*site);
    }
    if let Some(text) = site.contacts.get() {
        return Step::Ready(text.clone());
    }
    if let Some(step) = read_config(site) {
        return step;
    }
    let text = match site.config.get() {
        Some(Some(config)) => links_page(&config.links),
        _ => String::from_str(READ_JSON_ERROR),
    };
    site.contacts.resolve(text.clone());
    Step::Ready(text)
}

/// The profile summary. The first caller is told to fetch, callers that come
/// while the fetch is under way are told to wait, and what the fetch led to
/// is returned ever after.
pub fn get_github(site: &mut Portfolio) -> (step: Step)
    ensures
        (final(site)@, step@) == old(site)@.get_github(),
        final(site)@.wf(),
        !(step is FetchRepos),
{
    proof {
        use_type_invariant(&*site);
    }
    if let Some(text) = site.github.get() {
        return Step::Ready(text.clone());
    }
    if let Turn::Wait = site.github.peek() {
        return Step::Wait;
    }
    if let Some(step) = read_config(site) {
        return step;
    }
    match site.config.get() {
        Some(Some(config)) => {
            let (info_url, stats_url) = github_requests(config.github.as_str());
            site.github.request();
            Step::FetchProfile { info_url, stats_url }
        },
        _ => {
            site.github.resolve(String::from_str(READ_JSON_ERROR));
            Step::Ready(String::from_str(READ_JSON_ERROR))
        },
    }
}

/// The repository list. The first caller is told to fetch, callers that come
/// while the fetch is under way are told to wait, and what the fetch led to
/// is returned ever after.
pub fn get_repos(site: &mut Portfolio) -> (step: Step)
    ensures
        (final(site)@, step@) == old(site)@.get_repos(),
        final(site)@.wf(),
        !(step is FetchProfile),
{
    proof {
        use_type_invariant(&*site);
    }
    if let Some(text) = site.repos.get() {
        return Step::Ready(text.clone());
    }
    if let Turn::Wait = site.repos.peek() {
        return Step::Wait;
    }
    if let Some(step) = read_config(site) {
        return step;
    }
    match site.config.get() {
        Some(Some(config)) => {
            let url = repos_request(config.github.as_str());
            site.repos.request();
            Step::FetchRepos { url }
        },
        _ => {
            site.repos.resolve(String::from_str(READ_JSON_ERROR));
            Step::Ready(String::from_str(READ_JSON_ERROR))
        },
    }
}

/// Reports what reading the configuration gave: the configuration, or
/// nothing where it could not be read. The first report stays for good.
pub fn config_parsed(site: &mut Portfolio, parsed: Option<Config>)
    ensures
        final(site)@ == old(site)@.config_parsed(opt_view(parsed)),
        final(site)@.wf(),
{
    proof {
        use_type_invariant(&*site);
    }
    site.config.resolve(parsed);
}

/// Reports the answers to the two profile requests. If a fetch was under
/// way, the profile text is settled: the summary where both answers were
/// accepted, the fetch error otherwise.
pub fn github_fetched(site: &mut Portfolio, info: Reply<UserInfo>, stats: Reply<UserStats>)
    ensures
        final(site)@ == old(site)@.github_fetched(
            opt_view(info.accepted()),
            opt_view(stats.accepted()),
        ),
        final(site)@.wf(),
{
    proof {
        use_type_invariant(&*site);
    }
    if let Turn::Wait = site.github.peek() {
        if let Some(Some(config)) = site.config.get() {
            let text = fetch_github(Some(config), info, stats);
            site.github.resolve(text);
        }
    }
}

/// Reports the answer to the repository request. If a fetch was under way,
/// the repository text is settled: the list where the answer was accepted,
/// the fetch error otherwise.
pub fn repos_fetched(site: &mut Portfolio, reply: Reply<Vec<Repo>>)
    ensures
        final(site)@ == old(site)@.repos_fetched(opt_views(reply.accepted())),
        final(site)@.wf(),
{
    proof {
        use_type_invariant(&*site);
    }
    if let Turn::Wait = site.repos.peek() {
        if let Some(Some(config)) = site.config.get() {
            let text = fetch_repos(Some(config), reply);
            site.repos.resolve(text);
        }
    }
}

} // verus!
