//! From records to display text: one formatter for each kind of record, and
//! the two lookups from a language's name to its colour and its drawing.

use vstd::prelude::*;
use crate::art::{BLOCKS, JAVASCRIPT, NEOFETCH, PLACEHOLDER, PYTHON, RUST};
use crate::strings::{
    date_of, date_part, decimal, decimal_string, join, joined, opt_view, str_eq, to_uppercase,
    uppercase, views,
};
use crate::structs::{
    About, AboutView, Account, AccountView, Education, EducationView, Experience, ExperienceView,
    Links, LinksView, Repo, RepoView, Repos, ReposView,
};

verus! {

/// A record that can be shown. The text is a function of the record's view
/// alone, so equal records are shown alike.
pub trait Formatter: View + Sized {
    /// The text that stands for a record.
    spec fn formatted(record: Self::V) -> Seq<char>;

    /// Writes the record out.
    fn formatter(self) -> (text: String)
        ensures
            text@ == Self::formatted(self@),
    ;
}

/// The colour token of a language, for the languages that have one.
pub open spec fn lang_color(name: Seq<char>) -> Option<Seq<char>> {
    if name == "Rust"@ {
        Some("orange"@)
    } else if name == "Python"@ {
        Some("blue"@)
    } else if name == "C"@ {
        Some("dblue"@)
    } else if name == "C++"@ {
        Some("dblue"@)
    } else if name == "Java"@ {
        Some("red"@)
    } else if name == "Haskell"@ {
        Some("purple"@)
    } else if name == "Zig"@ {
        Some("orange"@)
    } else if name == "Go"@ {
        Some("blue"@)
    } else if name == "Dart"@ {
        Some("dblue"@)
    } else if name == "JavaScript"@ {
        Some("yellow"@)
    } else if name == "TypeScript"@ {
        Some("blue"@)
    } else if name == "Bash"@ {
        Some("dgreen"@)
    } else {
        None
    }
}

/// A language's name in its colour, or unstyled where it has none.
pub open spec fn lang_span(name: Seq<char>) -> Seq<char> {
    match lang_color(name) {
        Some(color) => "<span style=\"color:var(--"@ + color + ");\">"@ + name + "</span>"@,
        None => "<span>"@ + name + "</span>"@,
    }
}

/// The spans of a list of languages, in the list's order.
pub open spec fn lang_spans(langs: Seq<Seq<char>>) -> Seq<Seq<char>> {
    Seq::new(langs.len(), |i: int| lang_span(langs[i]))
}

/// A list of languages on one line, each in its colour.
pub open spec fn langs_text(langs: Seq<Seq<char>>) -> Seq<char> {
    joined(lang_spans(langs), " "@)
}

/// The drawing for a language: its own, that of the language it is written
/// with, or the placeholder.
pub open spec fn icon_for(name: Seq<char>) -> Seq<char> {
    if name == "Rust"@ {
        RUST@
    } else if name == "Python"@ || name == "Jupyter Notebook"@ {
        PYTHON@
    } else if name == "CSS"@ || name == "HTML"@ || name == "JavaScript"@ {
        JAVASCRIPT@
    } else {
        PLACEHOLDER@
    }
}

/// The entry for the GitHub profile.
pub open spec fn github_entry(handle: Seq<char>) -> Seq<char> {
    "  <a href=\"https://github.com/"@ + handle
        + "\" target=\"_blank\" class=\"semibold\"  style=\"color:var(--purple);\">Github</a>: github.com/"@
        + handle + "\n"@
}

/// The entry for an e-mail address.
pub open spec fn email_entry(address: Seq<char>) -> Seq<char> {
    "\n  <a href=\"mailto:"@ + address
        + "\" target=\"_blank\" class=\"semibold\" style=\"color:var(--orange);\">Email</a>: "@
        + address + "\n  "@
}

/// The entry for a LinkedIn profile.
pub open spec fn linkedin_entry(path: Seq<char>) -> Seq<char> {
    "\n  <a href=\"https://www.linkedin.com/"@ + path
        + "\" target=\"_blank\" class=\"semibold\" style=\"color:var(--dblue);\">LinkedIn</a>: linkedin.com/"@
        + path + "\n  "@
}

/// The entry for a Twitter/X handle.
pub open spec fn twitter_entry(handle: Seq<char>) -> Seq<char> {
    "\n  <a href=\"https://www.twitter.com/"@ + handle
        + "\" target=\"_blank\" class=\"blu semibold\">Twitter/X</a>: @"@ + handle + "\n  "@
}

/// `entries`, with one more at the end where `item` is given.
pub open spec fn with_entry(
    entries: Seq<Seq<char>>,
    item: Option<Seq<char>>,
    entry: spec_fn(Seq<char>) -> Seq<char>,
) -> Seq<Seq<char>> {
    match item {
        Some(value) => entries.push(entry(value)),
        None => entries,
    }
}

/// The entries of the contact list: GitHub first, then e-mail, LinkedIn and
/// Twitter/X, each only where it is given.
pub open spec fn link_entries(links: LinksView) -> Seq<Seq<char>> {
    let github = seq![github_entry(links.github)];
    let email = with_entry(github, links.email, |a: Seq<char>| email_entry(a));
    let linkedin = with_entry(email, links.linkedin, |p: Seq<char>| linkedin_entry(p));
    with_entry(linkedin, links.twitter, |h: Seq<char>| twitter_entry(h))
}

/// The contact list: its entries one after the other.
pub open spec fn links_text(links: LinksView) -> Seq<char> {
    joined(link_entries(links), Seq::empty())
}

/// Each item behind a bullet mark.
pub open spec fn bulleted(mark: Seq<char>, items: Seq<Seq<char>>) -> Seq<Seq<char>> {
    Seq::new(items.len(), |i: int| mark + items[i])
}

/// One position: its title, then the lines that describe it as bullets.
pub open spec fn experience_entry(position: ExperienceView) -> Seq<char> {
    let lines = bulleted("<span class=\"blu semibold\">*</span> "@, position.description);
    "<span class=\"blu semibold\">Title:</span> "@ + position.title
        + "\n<span class=\"blu semibold\">Description:</span> \n"@
        + joined(lines, "\n"@)
}

/// The entries of a list of positions, in the list's order.
pub open spec fn experience_entries(positions: Seq<ExperienceView>) -> Seq<Seq<char>> {
    Seq::new(positions.len(), |i: int| experience_entry(positions[i]))
}

/// One course of study: institute, course and duration, a line each.
pub open spec fn education_entry(study: EducationView) -> Seq<char> {
    "<span class=\"blu semibold\">Institute: </span>"@ + study.institute
        + "\n<span class=\"blu semibold\">Course:</span> "@ + study.course
        + "\n<span class=\"blu semibold\">Duration:</span> "@ + study.duration + "\n"@
}

/// The entries of a list of courses, in the list's order.
pub open spec fn education_entries(studies: Seq<EducationView>) -> Seq<Seq<char>> {
    Seq::new(studies.len(), |i: int| education_entry(studies[i]))
}

/// The biography without its frame: the name in upper case, the
/// introduction, then interests, languages, experience and education under
/// a heading each.
pub open spec fn about_body(about: AboutView) -> Seq<char> {
    let interests = bulleted("<span class=\"rd semibold\">*</span> "@, about.interests);
    "<center class=\"grn semibold\">"@ + uppercase(about.name) + "</center>\n"@
        + about.intro
        + "\n\n<u class=\"rd semibold\">Interests</u>\n\n"@
        + joined(interests, "\n"@)
        + "\n\n<u class=\"rd semibold\">Languages</u>\n\n"@
        + langs_text(about.langs)
        + "\n\n<u class=\"rd semibold\">Experience</u>\n\n"@
        + joined(experience_entries(about.experience), "\n"@)
        + "\n\n<u class=\"rd semibold\">Education</u>\n\n"@
        + joined(education_entries(about.education), "\n"@)
        + "\n"@
}

/// The biography.
pub open spec fn about_text(about: AboutView) -> Seq<char> {
    "\n\n\n<div class=\"row\" style=\"display: flex; flex-direction: row; align-items: center; justify-content: center;\"> \n<div class=\"acols\">"@
        + about_body(about) + "</div>\n</div>\n"@
}

/// A value that may be missing, with a dash in its place.
pub open spec fn or_dash(value: Option<Seq<char>>) -> Seq<char> {
    match value {
        Some(text) => text,
        None => "-"@,
    }
}

/// One line of the profile summary: a label and its value.
pub open spec fn field(label: Seq<char>, value: Seq<char>) -> Seq<char> {
    "\n<span class=\"grn semibold\">"@ + label + ":</span> "@ + value
}

/// The profile summary without the drawing: a heading that links to the
/// profile, the labelled values, and the row of colour samples.
pub open spec fn account_card(account: AccountView) -> Seq<char> {
    "<a href=\"https://www.github.com/"@ + account.username
        + "\" style=\"text-decoration:none\" target=\"_blank\"><span class=\"grn semibold\">"@
        + account.username
        + "</span>@<span class=\"grn semibold\">github</span></a>\n----------------------"@
        + field("Name"@, or_dash(account.info.name))
        + field("Bio"@, or_dash(account.info.bio))
        + field("Repos"@, decimal(account.info.public_repos))
        + field("Langs"@, langs_text(account.langs))
        + field("Stars"@, decimal(account.stats.stars))
        + field("Forks"@, decimal(account.stats.forks))
        + field("Company"@, or_dash(account.info.company))
        + field("Location"@, or_dash(account.info.location))
        + field("Followers"@, decimal(account.info.followers))
        + field("Following"@, decimal(account.info.following))
        + field("Created on"@, date_part(account.info.created_at))
        + "\n\n"@
        + BLOCKS@
}

/// The profile summary: the drawing and the card side by side.
pub open spec fn account_text(account: AccountView) -> Seq<char> {
    "<div class=\"row\">\n<div class=\"gcols\">"@ + NEOFETCH@
        + "</div>\n<div class=\"gcols\">"@ + account_card(account) + "</div>\n</div>"@
}

/// A drawing and a text side by side.
pub open spec fn row(icon: Seq<char>, body: Seq<char>) -> Seq<char> {
    "<div class=\"row\">\n<div class=\"rcols\">"@ + icon
        + "</div>\n<div class=\"rcols\" style=\"width: 45%;\">"@ + body + "</div>\n</div>"@
}

/// What is written of one repository: its name as a link, its description,
/// its language in the colour reported for it, and its stars and forks.
pub open spec fn repo_card(repo: RepoView) -> Seq<char> {
    "<a href=\""@ + repo.repo + "\" target=\"_blank\" class=\"blu semibold\">"@ + repo.name
        + "</a>\n\n<span class=\"rd semibold\">Description:</span> "@ + repo.description
        + "\n<span class=\"rd semibold\">Language:</span> <span style=\"color:"@
        + repo.language.color + "\">"@ + repo.language.name
        + "</span>\n<span class=\"rd semibold\">Stars:</span> <span class=\"ylw\">"@
        + decimal(repo.stars)
        + "</span>\n<span class=\"rd semibold\">Forks:</span> <span class=\"ylw\">"@
        + decimal(repo.forks)
        + "</span>\n\n        "@
}

/// One repository: the drawing for its language beside its card.
pub open spec fn repo_block(repo: RepoView) -> Seq<char> {
    row(icon_for(repo.language.name), repo_card(repo))
}

/// The blocks of a list of repositories, in the list's order.
pub open spec fn repo_blocks(repos: Seq<RepoView>) -> Seq<Seq<char>> {
    Seq::new(repos.len(), |i: int| repo_block(repos[i]))
}

/// The closing block, which links to all repositories of a handle.
pub open spec fn all_repos_block(username: Seq<char>) -> Seq<char> {
    row(
        PLACEHOLDER@,
        "<a href=\"https://www.github.com/"@ + username
            + "?tab=repositories\" target=\"_blank\" class=\"blu semibold\">All repos</a>\n\n<span class=\"rd semibold\">Description:</span> All my Github repositories."@,
    )
}

/// The repository list: a block for each repository, then the closing block.
pub open spec fn repos_text(repos: ReposView) -> Seq<char> {
    joined(repo_blocks(repos.repos), "\n"@) + "\n"@ + all_repos_block(repos.username)
}

/// Looks a language up in the colour table.
pub fn lang_color_of(lang: &str) -> (color: Option<&'static str>)
    ensures
        match color {
            Some(token) => lang_color(lang@) == Some(token@),
            None => lang_color(lang@) is None,
        },
{
    if str_eq(lang, "Rust") {
        Some("orange")
    } else if str_eq(lang, "Python") {
        Some("blue")
    } else if str_eq(lang, "C") {
        Some("dblue")
    } else if str_eq(lang, "C++") {
        Some("dblue")
    } else if str_eq(lang, "Java") {
        Some("red")
    } else if str_eq(lang, "Haskell") {
        Some("purple")
    } else if str_eq(lang, "Zig") {
        Some("orange")
    } else if str_eq(lang, "Go") {
        Some("blue")
    } else if str_eq(lang, "Dart") {
        Some("dblue")
    } else if str_eq(lang, "JavaScript") {
        Some("yellow")
    } else if str_eq(lang, "TypeScript") {
        Some("blue")
    } else if str_eq(lang, "Bash") {
        Some("dgreen")
    } else {
        None
    }
}

/// Writes one language's name in its colour.
fn format_lang(lang: &str) -> (text: String)
    ensures
        text@ == lang_span(lang@),
{
    match lang_color_of(lang) {
        Some(color) => {
            let mut text = String::from_str("<span style=\"color:var(--");
            text.append(color);
            text.append(");\">");
            text.append(lang);
            text.append("</span>");
            text
        },
        None => {
            let mut text = String::from_str("<span>");
            text.append(lang);
            text.append("</span>");
            text
        },
    }
}

/// Writes a list of languages on one line, each in its colour.
pub(crate) fn langs_line(langs: &Vec<String>) -> (text: String)
    ensures
        text@ == langs_text(views(langs@)),
{
    let mut spans: Vec<String> = Vec::new();
    let mut i: usize = 0;
    while i < langs.len()
        invariant
            i <= langs.len(),
            spans@.len() == i,
            forall|k: int| 0 <= k < i ==> spans@[k]@ == lang_span(#[trigger] langs@[k]@),
        decreases langs.len() - i,
    {
        spans.push(format_lang(langs[i].as_str()));
        i += 1;
    }
    assert(views(spans@) =~= lang_spans(views(langs@)));
    join(&spans, " ")
}

/// Writes a list of languages on one line, each in its colour; a language
/// without a colour is left unstyled.
pub fn format_langs(langs: Vec<String>) -> (text: String)
    ensures
        text@ == langs_text(views(langs@)),
{
    langs_line(&langs)
}

/// Picks the drawing for a language.
pub fn lang_icon(lang: &str) -> (icon: &'static str)
    ensures
        icon@ == icon_for(lang@),
{
    if str_eq(lang, "Rust") {
        RUST
    } else if str_eq(lang, "Python") || str_eq(lang, "Jupyter Notebook") {
        PYTHON
    } else if str_eq(lang, "CSS") || str_eq(lang, "HTML") || str_eq(lang, "JavaScript") {
        JAVASCRIPT
    } else {
        PLACEHOLDER
    }
}

/// Writes each item behind a bullet mark, a line each.
fn bullets(mark: &str, items: &Vec<String>) -> (text: String)
    ensures
        text@ == joined(bulleted(mark@, views(items@)), "\n"@),
{
    let mut lines: Vec<String> = Vec::new();
    let mut i: usize = 0;
    while i < items.len()
        invariant
            i <= items.len(),
            lines@.len() == i,
            forall|k: int| 0 <= k < i ==> lines@[k]@ == mark@ + #[trigger] items@[k]@,
        decreases items.len() - i,
    {
        let mut line = String::from_str(mark);
        line.append(items[i].as_str());
        lines.push(line);
        i += 1;
    }
    assert(views(lines@) =~= bulleted(mark@, views(items@)));
    join(&lines, "\n")
}

/// Writes one position.
fn experience_lines(position: &Experience) -> (text: String)
    ensures
        text@ == experience_entry(position@),
{
    let mut text = String::from_str("<span class=\"blu semibold\">Title:</span> ");
    text.append(position.title.as_str());
    text.append("\n<span class=\"blu semibold\">Description:</span> \n");
    let lines = bullets("<span class=\"blu semibold\">*</span> ", &position.description);
    text.append(lines.as_str());
    text
}

/// Writes one course of study.
fn education_lines(study: &Education) -> (text: String)
    ensures
        text@ == education_entry(study@),
{
    let mut text = String::from_str("<span class=\"blu semibold\">Institute: </span>");
    text.append(study.institute.as_str());
    text.append("\n<span class=\"blu semibold\">Course:</span> ");
    text.append(study.course.as_str());
    text.append("\n<span class=\"blu semibold\">Duration:</span> ");
    text.append(study.duration.as_str());
    text.append("\n");
    text
}

/// Writes the positions held, one under the other.
fn experience_section(positions: &Vec<Experience>) -> (text: String)
    ensures
        text@ == joined(experience_entries(views(positions@)), "\n"@),
{
    let mut entries: Vec<String> = Vec::new();
    let mut i: usize = 0;
    while i < positions.len()
        invariant
            i <= positions.len(),
            entries@.len() == i,
            forall|k: int|
                0 <= k < i ==> entries@[k]@ == experience_entry(#[trigger] positions@[k]@),
        decreases positions.len() - i,
    {
        entries.push(experience_lines(&positions[i]));
        i += 1;
    }
    assert(views(entries@) =~= experience_entries(views(positions@)));
    join(&entries, "\n")
}

/// Writes the courses of study, one under the other.
fn education_section(studies: &Vec<Education>) -> (text: String)
    ensures
        text@ == joined(education_entries(views(studies@)), "\n"@),
{
    let mut entries: Vec<String> = Vec::new();
    let mut i: usize = 0;
    while i < studies.len()
        invariant
            i <= studies.len(),
            entries@.len() == i,
            forall|k: int|
                0 <= k < i ==> entries@[k]@ == education_entry(#[trigger] studies@[k]@),
        decreases studies.len() - i,
    {
        entries.push(education_lines(&studies[i]));
        i += 1;
    }
    assert(views(entries@) =~= education_entries(views(studies@)));
    join(&entries, "\n")
}

/// Writes the biography.
pub(crate) fn about_page(about: &About) -> (text: String)
    ensures
        text@ == about_text(about@),
{
    let mut body = String::from_str("<center class=\"grn semibold\">");
    body.append(to_uppercase(about.name.as_str()).as_str());
    body.append("</center>\n");
    body.append(about.intro.as_str());
    body.append("\n\n<u class=\"rd semibold\">Interests</u>\n\n");
    body.append(bullets("<span class=\"rd semibold\">*</span> ", &about.interests).as_str());
    body.append("\n\n<u class=\"rd semibold\">Languages</u>\n\n");
    body.append(langs_line(&about.langs).as_str());
    body.append("\n\n<u class=\"rd semibold\">Experience</u>\n\n");
    body.append(experience_section(&about.experience).as_str());
    body.append("\n\n<u class=\"rd semibold\">Education</u>\n\n");
    body.append(education_section(&about.education).as_str());
    body.append("\n");

    let mut text = String::from_str(
        "\n\n\n<div class=\"row\" style=\"display: flex; flex-direction: row; align-items: center; justify-content: center;\"> \n<div class=\"acols\">",
    );
    text.append(body.as_str());
    text.append("</div>\n</div>\n");
    text
}

/// The text of a value that may be missing.
fn text_or_dash(value: &Option<String>) -> (text: &str)
    ensures
        text@ == or_dash(opt_view(*value)),
{
    match value {
        Some(text) => text.as_str(),
        None => "-",
    }
}

/// Appends one line of the profile summary.
fn push_field(out: &mut String, label: &str, value: &str)
    ensures
        final(out)@ == old(out)@ + field(label@, value@),
{
    let mut line = String::from_str("\n<span class=\"grn semibold\">");
    line.append(label);
    line.append(":</span> ");
    line.append(value);
    out.append(line.as_str());
}

/// Writes the profile summary.
pub(crate) fn account_page(account: &Account) -> (text: String)
    ensures
        text@ == account_text(account@),
{
    let info = account.info();
    let stats = account.stats();
    let username = account.username().as_str();

    let mut card = String::from_str("<a href=\"https://www.github.com/");
    card.append(username);
    card.append(
        "\" style=\"text-decoration:none\" target=\"_blank\"><span class=\"grn semibold\">",
    );
    card.append(username);
    card.append("</span>@<span class=\"grn semibold\">github</span></a>\n----------------------");
    push_field(&mut card, "Name", text_or_dash(&info.name));
    push_field(&mut card, "Bio", text_or_dash(&info.bio));
    push_field(&mut card, "Repos", decimal_string(info.public_repos).as_str());
    push_field(&mut card, "Langs", langs_line(account.langs()).as_str());
    push_field(&mut card, "Stars", decimal_string(stats.stars).as_str());
    push_field(&mut card, "Forks", decimal_string(stats.forks).as_str());
    push_field(&mut card, "Company", text_or_dash(&info.company));
    push_field(&mut card, "Location", text_or_dash(&info.location));
    push_field(&mut card, "Followers", decimal_string(info.followers).as_str());
    push_field(&mut card, "Following", decimal_string(info.following).as_str());
    push_field(&mut card, "Created on", date_of(info.created_at.as_str()));
    card.append("\n\n");
    card.append(BLOCKS);

    let mut text = String::from_str("<div class=\"row\">\n<div class=\"gcols\">");
    text.append(NEOFETCH);
    text.append("</div>\n<div class=\"gcols\">");
    text.append(card.as_str());
    text.append("</div>\n</div>");
    text
}

/// Writes a drawing and a text side by side.
fn row_of(icon: &str, body: &str) -> (text: String)
    ensures
        text@ == row(icon@, body@),
{
    let mut text = String::from_str("<div class=\"row\">\n<div class=\"rcols\">");
    text.append(icon);
    text.append("</div>\n<div class=\"rcols\" style=\"width: 45%;\">");
    text.append(body);
    text.append("</div>\n</div>");
    text
}

/// Writes one repository.
fn repo_lines(repo: &Repo) -> (text: String)
    ensures
        text@ == repo_block(repo@),
{
    let mut card = String::from_str("<a href=\"");
    card.append(repo.repo.as_str());
    card.append("\" target=\"_blank\" class=\"blu semibold\">");
    card.append(repo.name.as_str());
    card.append("</a>\n\n<span class=\"rd semibold\">Description:</span> ");
    card.append(repo.description.as_str());
    card.append("\n<span class=\"rd semibold\">Language:</span> <span style=\"color:");
    card.append(repo.language.color.as_str());
    card.append("\">");
    card.append(repo.language.name.as_str());
    card.append("</span>\n<span class=\"rd semibold\">Stars:</span> <span class=\"ylw\">");
    card.append(decimal_string(repo.stars).as_str());
    card.append("</span>\n<span class=\"rd semibold\">Forks:</span> <span class=\"ylw\">");
    card.append(decimal_string(repo.forks).as_str());
    card.append("</span>\n\n        ");
    row_of(lang_icon(repo.language.name.as_str()), card.as_str())
}

/// Writes the repository list.
pub(crate) fn repos_page(repos: &Repos) -> (text: String)
    ensures
        text@ == repos_text(repos@),
{
    let mut blocks: Vec<String> = Vec::new();
    let mut i: usize = 0;
    while i < repos.repos.len()
        invariant
            i <= repos.repos.len(),
            blocks@.len() == i,
            forall|k: int| 0 <= k < i ==> blocks@[k]@ == repo_block(#[trigger] repos.repos@[k]@),
        decreases repos.repos.len() - i,
    {
        blocks.push(repo_lines(&repos.repos[i]));
        i += 1;
    }
    assert(views(blocks@) =~= repo_blocks(views(repos.repos@)));

    let mut link = String::from_str("<a href=\"https://www.github.com/");
    link.append(repos.username.as_str());
    link.append(
        "?tab=repositories\" target=\"_blank\" class=\"blu semibold\">All repos</a>\n\n<span class=\"rd semibold\">Description:</span> All my Github repositories.",
    );
    let all = row_of(PLACEHOLDER, link.as_str());

    let mut text = join(&blocks, "\n");
    text.append("\n");
    text.append(all.as_str());
    text
}

/// Writes the entry for the GitHub profile.
fn github_line(handle: &str) -> (text: String)
    ensures
        text@ == github_entry(handle@),
{
    let mut text = String::from_str("  <a href=\"https://github.com/");
    text.append(handle);
    text.append(
        "\" target=\"_blank\" class=\"semibold\"  style=\"color:var(--purple);\">Github</a>: github.com/",
    );
    text.append(handle);
    text.append("\n");
    text
}

/// Writes the entry for an e-mail address.
fn email_line(address: &str) -> (text: String)
    ensures
        text@ == email_entry(address@),
{
    let mut text = String::from_str("\n  <a href=\"mailto:");
    text.append(address);
    text.append(
        "\" target=\"_blank\" class=\"semibold\" style=\"color:var(--orange);\">Email</a>: ",
    );
    text.append(address);
    text.append("\n  ");
    text
}

/// Writes the entry for a LinkedIn profile.
fn linkedin_line(path: &str) -> (text: String)
    ensures
        text@ == linkedin_entry(path@),
{
    let mut text = String::from_str("\n  <a href=\"https://www.linkedin.com/");
    text.append(path);
    text.append(
        "\" target=\"_blank\" class=\"semibold\" style=\"color:var(--dblue);\">LinkedIn</a>: linkedin.com/",
    );
    text.append(path);
    text.append("\n  ");
    text
}

/// Writes the entry for a Twitter/X handle.
fn twitter_line(handle: &str) -> (text: String)
    ensures
        text@ == twitter_entry(handle@),
{
    let mut text = String::from_str("\n  <a href=\"https://www.twitter.com/");
    text.append(handle);
    text.append("\" target=\"_blank\" class=\"blu semibold\">Twitter/X</a>: @");
    text.append(handle);
    text.append("\n  ");
    text
}

/// Lists the entries of the contact list.
pub fn link_lines(links: &Links) -> (lines: Vec<String>)
    ensures
        views(lines@) == link_entries(links@),
{
    let mut lines: Vec<String> = Vec::new();
    lines.push(github_line(links.github.as_str()));
    assert(views(lines@) =~= seq![github_entry(links@.github)]);
    let ghost github = views(lines@);
    if let Some(address) = &links.email {
        lines.push(email_line(address.as_str()));
        assert(views(lines@) =~= github.push(email_entry(address@)));
    }
    let ghost email = views(lines@);
    if let Some(path) = &links.linkedin {
        lines.push(linkedin_line(path.as_str()));
        assert(views(lines@) =~= email.push(linkedin_entry(path@)));
    }
    let ghost linkedin = views(lines@);
    if let Some(handle) = &links.twitter {
        lines.push(twitter_line(handle.as_str()));
        assert(views(lines@) =~= linkedin.push(twitter_entry(handle@)));
    }
    lines
}

/// Writes the contact list.
pub(crate) fn links_page(links: &Links) -> (text: String)
    ensures
        text@ == links_text(links@),
{
    proof {
        reveal_strlit("");
    }
    let lines = link_lines(links);
    assert(""@ =~= Seq::<char>::empty());
    join(&lines, "")
}

impl Formatter for About {
    open spec fn formatted(record: AboutView) -> Seq<char> {
        about_text(record)
    }

    fn formatter(self) -> (text: String) {
        about_page(&self)
    }
}

impl Formatter for Account {
    open spec fn formatted(record: AccountView) -> Seq<char> {
        account_text(record)
    }

    fn formatter(self) -> (text: String) {
        account_page(&self)
    }
}

impl Formatter for Repos {
    open spec fn formatted(record: ReposView) -> Seq<char> {
        repos_text(record)
    }

    fn formatter(self) -> (text: String) {
        repos_page(&self)
    }
}

impl Formatter for Links {
    open spec fn formatted(record: LinksView) -> Seq<char> {
        links_text(record)
    }

    fn formatter(self) -> (text: String) {
        links_page(&self)
    }
}

} // verus!
