//! The drawings that accompany the profile and the repositories.

use vstd::prelude::*;

verus! {

/// Drawn beside the profile summary.
pub const NEOFETCH: &'static str = r#"
          .-"""""""-.
        .'  _     _  '.
       /   (o)   (o)   \
      |                 |
      |   \         /   |
       \   '._____.'   /
        '.           .'
     .-.  '-._____.-'  .-.
    (   '--.       .--'   )
     '-._   '-----'   _.-'
         '--._____.--'
"#;

/// Drawn beside a repository written in Rust.
pub const RUST: &'static str = r#"
      _~^~^~_
  \) /  o o  \ (/
    '_   -   _'
    / '-----' \
"#;

/// Drawn beside a repository written in Python.
pub const PYTHON: &'static str = r#"
      .---.
     / o   \____
     \___       \
         \   o  /
          '----'
"#;

/// Drawn beside a repository written for the browser.
pub const JAVASCRIPT: &'static str = r#"
    .----------.
    |          |
    |          |
    |      JS  |
    '----------'
"#;

/// Drawn where no other drawing applies.
pub const PLACEHOLDER: &'static str = r#"
      /\___/\
     ( o   o )
     (  =^=  )
      (m   m)
"#;

/// The row of colour samples under the profile summary.
pub const BLOCKS: &'static str = r#"<span class="blocks" style="color:var(--black)">█</span><span class="rd blocks">█</span><span class="grn blocks">█</span><span class="ylw blocks">█</span><span class="blu blocks">█</span><span class="blocks" style="color:var(--orange)">█</span><span class="blocks" style="color:var(--purple)">█</span><span class="blocks">█</span>"#;

} // verus!
