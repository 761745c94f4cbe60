//! The records that the page is made from, each with its mathematical view.

use vstd::prelude::*;
use crate::strings::{has_date, has_date_part, opt_view, views};

verus! {

/// One position held: a title and the lines that describe it.
#[derive(Clone, Debug, PartialEq, Eq)]
pub struct Experience {
    pub title: String,
    pub description: Vec<String>,
}

pub struct ExperienceView {
    pub title: Seq<char>,
    pub description: Seq<Seq<char>>,
}

impl View for Experience {
    type V = ExperienceView;

    open spec fn view(&self) -> ExperienceView {
        ExperienceView { title: self.title@, description: views(self.description@) }
    }
}

/// One course of study.
#[derive(Clone, Debug, PartialEq, Eq)]
pub struct Education {
    pub institute: String,
    pub course: String,
    pub duration: String,
}

pub struct EducationView {
    pub institute: Seq<char>,
    pub course: Seq<char>,
    pub duration: Seq<char>,
}

impl View for Education {
    type V = EducationView;

    open spec fn view(&self) -> EducationView {
        EducationView {
            institute: self.institute@,
            course: self.course@,
            duration: self.duration@,
        }
    }
}

/// The biography section of the configuration.
#[derive(Clone, Debug, PartialEq, Eq)]
pub struct About {
    pub name: String,
    pub intro: String,
    pub interests: Vec<String>,
    pub langs: Vec<String>,
    pub experience: Vec<Experience>,
    pub education: Vec<Education>,
}

pub struct AboutView {
    pub name: Seq<char>,
    pub intro: Seq<char>,
    pub interests: Seq<Seq<char>>,
    pub langs: Seq<Seq<char>>,
    pub experience: Seq<ExperienceView>,
    pub education: Seq<EducationView>,
}

impl View for About {
    type V = AboutView;

    open spec fn view(&self) -> AboutView {
        AboutView {
            name: self.name@,
            intro: self.intro@,
            interests: views(self.interests@),
            langs: views(self.langs@),
            experience: views(self.experience@),
            education: views(self.education@),
        }
    }
}

/// Where to reach the owner: a GitHub handle, and what else is given.
#[derive(Clone, Debug, PartialEq, Eq)]
pub struct Links {
    pub github: String,
    pub email: Option<String>,
    pub linkedin: Option<String>,
    pub twitter: Option<String>,
}

pub struct LinksView {
    pub github: Seq<char>,
    pub email: Option<Seq<char>>,
    pub linkedin: Option<Seq<char>>,
    pub twitter: Option<Seq<char>>,
}

impl View for Links {
    type V = LinksView;

    open spec fn view(&self) -> LinksView {
        LinksView {
            github: self.github@,
            email: opt_view(self.email),
            linkedin: opt_view(self.linkedin),
            twitter: opt_view(self.twitter),
        }
    }
}

/// The whole configuration: biography, GitHub handle and links.
#[derive(Clone, Debug, PartialEq, Eq)]
pub struct Config {
    pub about: About,
    pub github: String,
    pub links: Links,
}

pub struct ConfigView {
    pub about: AboutView,
    pub github: Seq<char>,
    pub links: LinksView,
}

impl View for Config {
    type V = ConfigView;

    open spec fn view(&self) -> ConfigView {
        ConfigView { about: self.about@, github: self.github@, links: self.links@ }
    }
}

/// What the user directory reports of a profile.
#[derive(Clone, Debug, PartialEq, Eq)]
pub struct UserInfo {
    pub name: Option<String>,
    pub bio: Option<String>,
    pub company: Option<String>,
    pub location: Option<String>,
    pub public_repos: u64,
    pub followers: u64,
    pub following: u64,
    pub created_at: String,
}

pub struct UserInfoView {
    pub name: Option<Seq<char>>,
    pub bio: Option<Seq<char>>,
    pub company: Option<Seq<char>>,
    pub location: Option<Seq<char>>,
    pub public_repos: nat,
    pub followers: nat,
    pub following: nat,
    pub created_at: Seq<char>,
}

impl View for UserInfo {
    type V = UserInfoView;

    open spec fn view(&self) -> UserInfoView {
        UserInfoView {
            name: opt_view(self.name),
            bio: opt_view(self.bio),
            company: opt_view(self.company),
            location: opt_view(self.location),
            public_repos: self.public_repos as nat,
            followers: self.followers as nat,
            following: self.following as nat,
            created_at: self.created_at@,
        }
    }
}

/// Stars and forks summed over a profile's repositories.
#[derive(Clone, Copy, Debug, PartialEq, Eq)]
pub struct UserStats {
    pub stars: u64,
    pub forks: u64,
}

pub struct UserStatsView {
    pub stars: nat,
    pub forks: nat,
}

impl View for UserStats {
    type V = UserStatsView;

    open spec fn view(&self) -> UserStatsView {
        UserStatsView { stars: self.stars as nat, forks: self.forks as nat }
    }
}

/// A profile in full: handle, languages, directory record and totals. There
/// is no account whose creation timestamp lacks a date part.
#[derive(Debug)]
pub struct Account {
    username: String,
    langs: Vec<String>,
    info: UserInfo,
    stats: UserStats,
}

pub struct AccountView {
    pub username: Seq<char>,
    pub langs: Seq<Seq<char>>,
    pub info: UserInfoView,
    pub stats: UserStatsView,
}

impl AccountView {
    /// What holds of the view of every account.
    pub open spec fn dated(self) -> bool {
        has_date_part(self.info.created_at)
    }
}

impl View for Account {
    type V = AccountView;

    closed spec fn view(&self) -> AccountView {
        AccountView {
            username: self.username@,
            langs: views(self.langs@),
            info: self.info@,
            stats: self.stats@,
        }
    }
}

impl Account {
    #[verifier::type_invariant]
    spec fn well_formed(self) -> bool {
        has_date_part(self.info.created_at@)
    }

    /// Puts an account together, unless the directory record's timestamp has
    /// no date part.
    pub fn new(username: String, langs: Vec<String>, info: UserInfo, stats: UserStats) -> (account:
        Option<Account>)
        ensures
            account is Some <==> has_date_part(info.created_at@),
            account matches Some(a) ==> a@ == (AccountView {
                username: username@,
                langs: views(langs@),
                info: info@,
                stats: stats@,
            }),
    {
        if has_date(info.created_at.as_str()) {
            Some(Account { username, langs, info, stats })
        } else {
            None
        }
    }

    /// The handle the account belongs to.
    pub fn username(&self) -> (name: &String)
        ensures
            name@ == self@.username,
    {
        &self.username
    }

    /// The languages listed for the account.
    pub fn langs(&self) -> (langs: &Vec<String>)
        ensures
            views(langs@) == self@.langs,
    {
        &self.langs
    }

    /// The directory record.
    pub fn info(&self) -> (info: &UserInfo)
        ensures
            info@ == self@.info,
            self@.dated(),
    {
        proof {
            use_type_invariant(self);
        }
        &self.info
    }

    /// The star and fork totals.
    pub fn stats(&self) -> (stats: &UserStats)
        ensures
            stats@ == self@.stats,
    {
        &self.stats
    }
}

/// A language as the repository list reports it: its name and display colour.
#[derive(Clone, Debug, PartialEq, Eq)]
pub struct Language {
    pub name: String,
    pub color: String,
}

pub struct LanguageView {
    pub name: Seq<char>,
    pub color: Seq<char>,
}

impl View for Language {
    type V = LanguageView;

    open spec fn view(&self) -> LanguageView {
        LanguageView { name: self.name@, color: self.color@ }
    }
}

/// One pinned repository.
#[derive(Clone, Debug, PartialEq, Eq)]
pub struct Repo {
    pub name: String,
    pub repo: String,
    pub description: String,
    pub language: Language,
    pub stars: u64,
    pub forks: u64,
}

pub struct RepoView {
    pub name: Seq<char>,
    pub repo: Seq<char>,
    pub description: Seq<char>,
    pub language: LanguageView,
    pub stars: nat,
    pub forks: nat,
}

impl View for Repo {
    type V = RepoView;

    open spec fn view(&self) -> RepoView {
        RepoView {
            name: self.name@,
            repo: self.repo@,
            description: self.description@,
            language: self.language@,
            stars: self.stars as nat,
            forks: self.forks as nat,
        }
    }
}

/// The pinned repositories of one handle, in the order they were reported.
#[derive(Clone, Debug, PartialEq, Eq)]
pub struct Repos {
    pub username: String,
    pub repos: Vec<Repo>,
}

pub struct ReposView {
    pub username: Seq<char>,
    pub repos: Seq<RepoView>,
}

impl View for Repos {
    type V = ReposView;

    open spec fn view(&self) -> ReposView {
        ReposView { username: self.username@, repos: views(self.repos@) }
    }
}

} // verus!
