//! The fixed texts of the page: help, credits, and what is shown in place of
//! content that could not be produced.

use vstd::prelude::*;

verus! {

/// The list of commands.
pub const HELP: &'static str = r#"<span class="grn semibold">  ________________  __  _____________  __    ________ 
 /_  __/ ____/ __ \/  |/  / ____/ __ \/ /   /  _/ __ \
  / / / __/ / /_/ / /|_/ / /_  / / / / /    / // / / /
 / / / /___/ _, _/ /  / / __/ / /_/ / /____/ // /_/ / 
/_/ /_____/_/ |_/_/  /_/_/    \____/_____/___/\____/  
</span>
Hello, welcome to <u class="blu semibold">Termfolio</u>. Type one of these commands -

  <span class="rd semibold">about</span> - View about me
  <span class="rd semibold">github</span> - View about Github profile 
  <span class="rd semibold">repos</span> - View about my pinned repos / projects
  <span class="rd semibold">links</span> - View contact info and links
  <span class="rd semibold">help</span> - View this help section
  <span class="rd semibold">theme</span> - Cycle through themes
  <span class="rd semibold">credits</span> - View credits and repo"#;

/// Where the page and the services behind it come from.
pub const CREDITS: &'static str = r#"<span class="grn"> _____ ______________  _________ _____ _     _____ _____ 
|_   _|  ___| ___ \  \/  ||  ___|  _  | |   |_   _|  _  |
  | | | |__ | |_/ / .  . || |_  | | | | |     | | | | | |
  | | |  __||    /| |\/| ||  _| | | | | |     | | | | | |
  | | | |___| |\ \| |  | || |   \ \_/ / |_____| |_\ \_/ /
  \_/ \____/\_| \_\_|  |_/\_|    \___/\_____/\___/ \___/ 
</span>
Terminal style portfolio website. 
 
  <a href="https://github.com/shettysach" target="_blank" class="blu semibold">Github</a>: github.com/shettysach

  <a href="https://github.com/shettysach/termfolio" target="_blank" class="blu semibold">Repo</a>: github.com/shettysach/termfolio

<span class="rd semibold">APIs used -</span>

* <a 
    href="https://docs.github.com/en/rest/about-the-rest-api"
    target="_blank"
    class="blu semibold">Github REST API</a>

* <a 
    href="https://github.com/Ysn4Irix/gh-pinned-repos-api"
    target="_blank" 
    class="blu semibold">Pinned repos</a> - Ysn4Irix/gh-pinned-repos-api

* <a 
    href="https://github.com/idealclover/GitHub-Star-Counter"
    target="_blank"
    class="blu semibold">Total stars and forks</a> - idealclover/GitHub-Star-Counter

"#;

/// Shown by every getter when the configuration could not be read.
pub const READ_JSON_ERROR: &'static str = r#"<span class="rd semibold">Error reading config.json</span>"#;
/// Shown when profile or repository data could not be fetched.
pub const FETCH_GITHUB_ERROR: &'static str =
    r#"<span class="rd semibold">Error fetching data from Github.</span>"#;

} // verus!
