use termfolio::art::{BLOCKS, JAVASCRIPT, NEOFETCH, PLACEHOLDER, PYTHON, RUST};
use termfolio::formats::{format_langs, lang_color_of, lang_icon, link_lines, Formatter};
use termfolio::structs::{
    About, Account, Education, Experience, Language, Links, Repo, Repos, UserInfo, UserStats,
};

fn s(text: &str) -> String {
    String::from(text)
}

fn sample_about() -> About {
    About {
        name: s("Ada Lovelace"),
        intro: s("Analyst and metaphysician."),
        interests: vec![s("Engines"), s("Poetry")],
        langs: vec![s("Rust"), s("Elixir"), s("C++")],
        experience: vec![
            Experience {
                title: s("Translator"),
                description: vec![s("Translated a memoir"), s("Wrote the notes")],
            },
            Experience { title: s("Tutor"), description: vec![] },
        ],
        education: vec![
            Education { institute: s("Home"), course: s("Mathematics"), duration: s("1828-1835") },
            Education { institute: s("London"), course: s("Logic"), duration: s("1840-1842") },
        ],
    }
}

fn sample_info() -> UserInfo {
    UserInfo {
        name: Some(s("Ada")),
        bio: None,
        company: Some(s("Analytical Engines Ltd")),
        location: None,
        public_repos: 42,
        followers: 1000,
        following: 0,
        created_at: s("2015-03-09T12:34:56Z"),
    }
}

#[test]
fn known_languages_are_coloured() {
    assert_eq!(
        format_langs(vec![s("Rust"), s("Python")]),
        "<span style=\"color:var(--orange);\">Rust</span> <span style=\"color:var(--blue);\">Python</span>"
    );
}

#[test]
fn every_colour_of_the_table() {
    let table = [
        ("Rust", "orange"),
        ("Python", "blue"),
        ("C", "dblue"),
        ("C++", "dblue"),
        ("Java", "red"),
        ("Haskell", "purple"),
        ("Zig", "orange"),
        ("Go", "blue"),
        ("Dart", "dblue"),
        ("JavaScript", "yellow"),
        ("TypeScript", "blue"),
        ("Bash", "dgreen"),
    ];
    for (lang, color) in table {
        assert_eq!(lang_color_of(lang), Some(color));
        assert_eq!(
            format_langs(vec![s(lang)]),
            format!(r#"<span style="color:var(--{});">{}</span>"#, color, lang)
        );
    }
}

#[test]
fn unknown_language_is_unstyled() {
    assert_eq!(lang_color_of("Elixir"), None);
    assert_eq!(format_langs(vec![s("Elixir")]), "<span>Elixir</span>");
}

#[test]
fn language_names_are_matched_exactly() {
    assert_eq!(format_langs(vec![s("rust")]), "<span>rust</span>");
    assert_eq!(format_langs(vec![s("Rust ")]), "<span>Rust </span>");
    assert_eq!(format_langs(vec![s("")]), "<span></span>");
}

#[test]
fn no_languages_no_text() {
    assert_eq!(format_langs(vec![]), "");
}

#[test]
fn languages_keep_their_order() {
    assert_eq!(
        format_langs(vec![s("Go"), s("Elixir"), s("Bash")]),
        "<span style=\"color:var(--blue);\">Go</span> <span>Elixir</span> <span style=\"color:var(--dgreen);\">Bash</span>"
    );
}

#[test]
fn icons_of_the_table() {
    assert_eq!(lang_icon("Rust"), RUST);
    assert_eq!(lang_icon("Python"), PYTHON);
    assert_eq!(lang_icon("Jupyter Notebook"), PYTHON);
    assert_eq!(lang_icon("CSS"), JAVASCRIPT);
    assert_eq!(lang_icon("HTML"), JAVASCRIPT);
    assert_eq!(lang_icon("JavaScript"), JAVASCRIPT);
}

#[test]
fn unknown_language_gets_the_placeholder() {
    assert_eq!(lang_icon("Elixir"), PLACEHOLDER);
    assert_eq!(lang_icon(""), PLACEHOLDER);
    assert_eq!(lang_icon("python"), PLACEHOLDER);
    assert_eq!(lang_icon("TypeScript"), PLACEHOLDER);
}

#[test]
fn the_drawings_differ() {
    assert_ne!(RUST, PYTHON);
    assert_ne!(RUST, JAVASCRIPT);
    assert_ne!(RUST, PLACEHOLDER);
    assert_ne!(PYTHON, JAVASCRIPT);
    assert_ne!(PYTHON, PLACEHOLDER);
    assert_ne!(JAVASCRIPT, PLACEHOLDER);
}

#[test]
fn links_with_github_and_email_only() {
    let links = Links { github: s("ada"), email: Some(s("ada@example.org")), linkedin: None, twitter: None };
    let lines = link_lines(&links);
    assert_eq!(lines.len(), 2);
    assert_eq!(
        lines[0],
        "  <a href=\"https://github.com/ada\" target=\"_blank\" class=\"semibold\"  style=\"color:var(--purple);\">Github</a>: github.com/ada\n"
    );
    assert_eq!(
        lines[1],
        "\n  <a href=\"mailto:ada@example.org\" target=\"_blank\" class=\"semibold\" style=\"color:var(--orange);\">Email</a>: ada@example.org\n  "
    );
    let text = links.formatter();
    assert_eq!(text, format!("{}{}", lines[0], lines[1]));
    assert!(!text.contains("LinkedIn"));
    assert!(!text.contains("Twitter"));
}

#[test]
fn links_with_github_only() {
    let links = Links { github: s("ada"), email: None, linkedin: None, twitter: None };
    assert_eq!(link_lines(&links).len(), 1);
    assert_eq!(
        links.formatter(),
        format!(
            r#"  <a href="https://github.com/{}" target="_blank" class="semibold"  style="color:var(--purple);">Github</a>: github.com/{}
"#,
            "ada", "ada"
        )
    );
}

#[test]
fn links_with_everything() {
    let links = Links {
        github: s("ada"),
        email: Some(s("ada@example.org")),
        linkedin: Some(s("in/ada")),
        twitter: Some(s("ada_l")),
    };
    let mut expected = String::new();
    expected += &format!(
        r#"  <a href="https://github.com/{}" target="_blank" class="semibold"  style="color:var(--purple);">Github</a>: github.com/{}
"#,
        "ada", "ada"
    );
    expected += &format!(
        r#"
  <a href="mailto:{}" target="_blank" class="semibold" style="color:var(--orange);">Email</a>: {}
  "#,
        "ada@example.org", "ada@example.org"
    );
    expected += &format!(
        r#"
  <a href="https://www.linkedin.com/{}" target="_blank" class="semibold" style="color:var(--dblue);">LinkedIn</a>: linkedin.com/{}
  "#,
        "in/ada", "in/ada"
    );
    expected += &format!(
        r#"
  <a href="https://www.twitter.com/{}" target="_blank" class="blu semibold">Twitter/X</a>: @{}
  "#,
        "ada_l", "ada_l"
    );
    assert_eq!(link_lines(&links).len(), 4);
    assert_eq!(links.formatter(), expected);
}

#[test]
fn links_skip_what_is_missing_and_keep_the_order() {
    let links = Links { github: s("ada"), email: None, linkedin: None, twitter: Some(s("ada_l")) };
    let lines = link_lines(&links);
    assert_eq!(lines.len(), 2);
    assert!(lines[0].contains(">Github</a>"));
    assert!(lines[1].contains(">Twitter/X</a>: @ada_l"));

    let links = Links { github: s("ada"), email: Some(s("a@b.c")), linkedin: Some(s("in/ada")), twitter: None };
    let lines = link_lines(&links);
    assert_eq!(lines.len(), 3);
    assert!(lines[1].contains(">Email</a>"));
    assert!(lines[2].contains(">LinkedIn</a>: linkedin.com/in/ada"));
}

fn expected_about(about: &About) -> String {
    let exp_string: String = about
        .experience
        .iter()
        .map(|exp| {
            format!(
                r#"<span class="blu semibold">Title:</span> {}
<span class="blu semibold">Description:</span> 
{}"#,
                exp.title,
                exp.description
                    .iter()
                    .map(|s| format!(r#"<span class="blu semibold">*</span> {}"#, s))
                    .collect::<Vec<_>>()
                    .join("\n"),
            )
        })
        .collect::<Vec<String>>()
        .join("\n");

    let edu_string: String = about
        .education
        .iter()
        .map(|edu| {
            format!(
                r#"<span class="blu semibold">Institute: </span>{}
<span class="blu semibold">Course:</span> {}
<span class="blu semibold">Duration:</span> {}
"#,
                edu.institute, edu.course, edu.duration
            )
        })
        .collect::<Vec<String>>()
        .join("\n");

    let text = format!(
        r#"<center class="grn semibold">{}</center>
{}

<u class="rd semibold">Interests</u>

{}

<u class="rd semibold">Languages</u>

{}

<u class="rd semibold">Experience</u>

{}

<u class="rd semibold">Education</u>

{}
"#,
        about.name.to_uppercase(),
        about.intro,
        about
            .interests
            .iter()
            .map(|s| format!(r#"<span class="rd semibold">*</span> {}"#, s))
            .collect::<Vec<_>>()
            .join("\n"),
        format_langs(about.langs.clone()),
        exp_string,
        edu_string
    );

    format!(
        r#"


<div class="row" style="display: flex; flex-direction: row; align-items: center; justify-content: center;"> 
<div class="acols">{}</div>
</div>
"#,
        text
    )
}

#[test]
fn about_is_written_in_full() {
    let about = sample_about();
    let expected = expected_about(&about);
    assert_eq!(about.formatter(), expected);
}

#[test]
fn about_has_the_name_in_upper_case() {
    let text = sample_about().formatter();
    assert!(text.contains("<center class=\"grn semibold\">ADA LOVELACE</center>\n"));
    assert!(!text.contains("Ada Lovelace"));
}

#[test]
fn about_upper_case_follows_unicode() {
    let mut about = sample_about();
    about.name = s("straße é");
    let text = about.formatter();
    assert!(text.contains("<center class=\"grn semibold\">STRASSE É</center>"));
}

#[test]
fn about_keeps_the_order_of_its_lists() {
    let text = sample_about().formatter();
    let engines = text.find("Engines").unwrap();
    let poetry = text.find("Poetry").unwrap();
    let translator = text.find("Translator").unwrap();
    let tutor = text.find("Tutor").unwrap();
    let home = text.find("Home").unwrap();
    let london = text.find("London").unwrap();
    assert!(engines < poetry && poetry < translator && translator < tutor);
    assert!(tutor < home && home < london);
    assert!(text.contains("<span class=\"rd semibold\">*</span> Engines\n<span class=\"rd semibold\">*</span> Poetry"));
    assert!(text.contains(
        "<span class=\"blu semibold\">*</span> Translated a memoir\n<span class=\"blu semibold\">*</span> Wrote the notes\n<span class=\"blu semibold\">Title:</span> Tutor"
    ));
}

#[test]
fn about_with_nothing_in_it() {
    let about = About {
        name: s(""),
        intro: s(""),
        interests: vec![],
        langs: vec![],
        experience: vec![],
        education: vec![],
    };
    let expected = expected_about(&about);
    assert_eq!(about.formatter(), expected);
}

fn expected_account(username: &str, langs: Vec<String>, info: &UserInfo, stats: &UserStats) -> String {
    let name = info.name.clone().unwrap_or(String::from("-"));
    let bio = info.bio.clone().unwrap_or(String::from("-"));
    let company = info.company.clone().unwrap_or(String::from("-"));
    let location = info.location.clone().unwrap_or(String::from("-"));
    let created_on = &info.created_at[..10];
    let text = format!(
        r#"<a href="https://www.github.com/{}" style="text-decoration:none" target="_blank"><span class="grn semibold">{}</span>@<span class="grn semibold">github</span></a>
----------------------
<span class="grn semibold">Name:</span> {}
<span class="grn semibold">Bio:</span> {}
<span class="grn semibold">Repos:</span> {}
<span class="grn semibold">Langs:</span> {}
<span class="grn semibold">Stars:</span> {}
<span class="grn semibold">Forks:</span> {}
<span class="grn semibold">Company:</span> {}
<span class="grn semibold">Location:</span> {}
<span class="grn semibold">Followers:</span> {}
<span class="grn semibold">Following:</span> {}
<span class="grn semibold">Created on:</span> {}

{BLOCKS}"#,
        username,
        username,
        name,
        bio,
        info.public_repos,
        format_langs(langs),
        stats.stars,
        stats.forks,
        company,
        location,
        info.followers,
        info.following,
        created_on
    );
    format!(
        r#"<div class="row">
<div class="gcols">{}</div>
<div class="gcols">{}</div>
</div>"#,
        NEOFETCH, text
    )
}

#[test]
fn account_is_written_in_full() {
    let info = sample_info();
    let stats = UserStats { stars: 12345, forks: 67 };
    let langs = vec![s("Rust"), s("Haskell")];
    let expected = expected_account("ada", langs.clone(), &info, &stats);
    let account = Account::new(s("ada"), langs, info, stats).unwrap();
    assert_eq!(account.formatter(), expected);
}

#[test]
fn account_shows_the_date_of_the_timestamp() {
    let account =
        Account::new(s("ada"), vec![], sample_info(), UserStats { stars: 0, forks: 0 }).unwrap();
    let text = account.formatter();
    assert!(text.contains("<span class=\"grn semibold\">Created on:</span> 2015-03-09\n\n"));
    assert!(!text.contains("12:34:56"));
}

#[test]
fn account_shows_a_dash_for_what_is_missing() {
    let mut info = sample_info();
    info.name = None;
    info.company = None;
    let account = Account::new(s("ada"), vec![], info, UserStats { stars: 0, forks: 0 }).unwrap();
    let text = account.formatter();
    assert!(text.contains("Name:</span> -\n"));
    assert!(text.contains("Bio:</span> -\n"));
    assert!(text.contains("Company:</span> -\n"));
    assert!(text.contains("Location:</span> -\n"));
    assert!(text.contains("Repos:</span> 42\n"));
    assert!(text.contains("Followers:</span> 1000\n"));
    assert!(text.contains("Following:</span> 0\n"));
}

#[test]
fn account_with_the_largest_numbers() {
    let mut info = sample_info();
    info.public_repos = u64::MAX;
    let stats = UserStats { stars: u64::MAX, forks: 10 };
    let expected = expected_account("ada", vec![], &info, &stats);
    let account = Account::new(s("ada"), vec![], info, stats).unwrap();
    let text = account.formatter();
    assert_eq!(text, expected);
    assert!(text.contains("Stars:</span> 18446744073709551615\n"));
}

#[test]
fn account_needs_a_date() {
    let stats = UserStats { stars: 0, forks: 0 };
    let mut info = sample_info();
    info.created_at = s("2015-03");
    assert!(Account::new(s("ada"), vec![], info, stats).is_none());

    let mut info = sample_info();
    info.created_at = s("");
    assert!(Account::new(s("ada"), vec![], info, stats).is_none());

    // the tenth byte falls inside a character
    let mut info = sample_info();
    info.created_at = s("2015-03-0é and more");
    assert!(Account::new(s("ada"), vec![], info, stats).is_none());

    let mut info = sample_info();
    info.created_at = s("2015-03-09");
    assert!(Account::new(s("ada"), vec![], info, stats).is_some());
}

#[test]
fn account_date_is_the_first_ten_bytes() {
    let mut info = sample_info();
    info.created_at = s("ééééé-rest");
    let account = Account::new(s("ada"), vec![], info, UserStats { stars: 0, forks: 0 }).unwrap();
    let text = account.formatter();
    assert!(text.contains("Created on:</span> ééééé\n\n"));
}

#[test]
fn account_getters_return_the_parts() {
    let account = Account::new(
        s("ada"),
        vec![s("Rust")],
        sample_info(),
        UserStats { stars: 3, forks: 4 },
    )
    .unwrap();
    assert_eq!(account.username(), "ada");
    assert_eq!(account.langs(), &vec![s("Rust")]);
    assert_eq!(account.info(), &sample_info());
    assert_eq!(account.stats(), &UserStats { stars: 3, forks: 4 });
}

fn sample_repo(name: &str, language: &str) -> Repo {
    Repo {
        name: s(name),
        repo: format!("https://github.com/ada/{}", name),
        description: format!("All about {}", name),
        language: Language { name: s(language), color: s("#dea584") },
        stars: 17,
        forks: 3,
    }
}

fn expected_repos(repos: &Repos) -> String {
    let res: Vec<String> = repos
        .repos
        .iter()
        .map(|repo| {
            let text = format!(
                r#"<a href="{}" target="_blank" class="blu semibold">{}</a>

<span class="rd semibold">Description:</span> {}
<span class="rd semibold">Language:</span> <span style="color:{}">{}</span>
<span class="rd semibold">Stars:</span> <span class="ylw">{}</span>
<span class="rd semibold">Forks:</span> <span class="ylw">{}</span>

        "#,
                repo.repo,
                repo.name,
                repo.description,
                repo.language.color,
                repo.language.name,
                repo.stars,
                repo.forks
            );

            format!(
                r#"<div class="row">
<div class="rcols">{}</div>
<div class="rcols" style="width: 45%;">{}</div>
</div>"#,
                lang_icon(&repo.language.name),
                text
            )
        })
        .collect();

    let all_link = format!(
        r#"<a href="https://www.github.com/{}?tab=repositories" target="_blank" class="blu semibold">All repos</a>

<span class="rd semibold">Description:</span> All my Github repositories."#,
        repos.username
    );

    let all = format!(
        r#"<div class="row">
<div class="rcols">{}</div>
<div class="rcols" style="width: 45%;">{}</div>
</div>"#,
        PLACEHOLDER, all_link
    );

    format!("{}\n{}", res.join("\n"), all)
}

#[test]
fn repos_are_written_in_full() {
    let repos = Repos {
        username: s("ada"),
        repos: vec![
            sample_repo("engine", "Rust"),
            sample_repo("notes", "Jupyter Notebook"),
            sample_repo("site", "HTML"),
            sample_repo("phoenix", "Elixir"),
        ],
    };
    let expected = expected_repos(&repos);
    assert_eq!(repos.formatter(), expected);
}

#[test]
fn repos_end_with_the_link_to_all() {
    let repos = Repos { username: s("ada"), repos: vec![sample_repo("engine", "Rust")] };
    let text = repos.formatter();
    assert!(text.ends_with(
        "<a href=\"https://www.github.com/ada?tab=repositories\" target=\"_blank\" class=\"blu semibold\">All repos</a>\n\n<span class=\"rd semibold\">Description:</span> All my Github repositories.</div>\n</div>"
    ));
    assert_eq!(text.matches("<div class=\"row\">").count(), 2);
}

#[test]
fn repos_without_a_repository() {
    let repos = Repos { username: s("ada"), repos: vec![] };
    let expected = expected_repos(&repos);
    let text = repos.formatter();
    assert_eq!(text, expected);
    assert!(text.starts_with("\n<div class=\"row\">"));
    assert_eq!(text.matches("<div class=\"row\">").count(), 1);
}

#[test]
fn repos_keep_their_order_and_their_icons() {
    let repos = Repos {
        username: s("ada"),
        repos: vec![sample_repo("zeta", "Python"), sample_repo("alpha", "Elixir")],
    };
    let text = repos.formatter();
    assert!(text.find("zeta").unwrap() < text.find("alpha").unwrap());
    assert!(text.find(PYTHON).unwrap() < text.find("zeta").unwrap());
    assert!(text.contains("<span style=\"color:#dea584\">Elixir</span>"));
    assert!(text.contains("Stars:</span> <span class=\"ylw\">17</span>"));
    assert!(text.contains("Forks:</span> <span class=\"ylw\">3</span>"));
}

#[test]
fn equal_records_give_equal_text() {
    assert_eq!(sample_about().formatter(), sample_about().formatter());
    let links = Links { github: s("ada"), email: Some(s("a@b.c")), linkedin: None, twitter: None };
    assert_eq!(links.clone().formatter(), links.formatter());
    let repos = Repos { username: s("ada"), repos: vec![sample_repo("engine", "Rust")] };
    assert_eq!(repos.clone().formatter(), repos.formatter());
    let stats = UserStats { stars: 1, forks: 2 };
    let first = Account::new(s("ada"), vec![s("C")], sample_info(), stats).unwrap();
    let second = Account::new(s("ada"), vec![s("C")], sample_info(), stats).unwrap();
    assert_eq!(first.formatter(), second.formatter());
}

#[test]
fn the_colour_samples_are_eight() {
    assert_eq!(BLOCKS.matches('█').count(), 8);
}
