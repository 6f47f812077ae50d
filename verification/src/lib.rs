//! A library for composing a colorized, git-aware shell prompt line.
//!
//! One render is a pure function of the supplied configuration and the
//! values read from the process environment: the working directory is
//! formatted, the enclosing repository (if any) is classified, and the
//! segments are joined into a single prompt string.

use vstd::prelude::*;

pub mod color;
pub mod dir;
pub mod strutil;
pub mod themes;
pub mod vcs;

pub use color::Color;
pub use color::colorize;
pub use themes::Theme;
pub use vcs::GitStatus;

use color::colorize_spec;
use dir::cwd_display_spec;
use dir::format_cwd;
use dir::opt_str_view;
use dir::opt_string_view;
use vcs::vcs_status;

verus! {

/// The prompt character for a given effective user id: `#` for the
/// superuser (id 0), `$` for everyone else.
pub open spec fn prompt_char_spec(euid: u32) -> Seq<char> {
    if euid == 0 {
        "#"@
    } else {
        "$"@
    }
}

/// Map the effective user id to the prompt character glyph.
pub fn get_char(euid: u32) -> (r: &'static str)
    ensures
        r@ == prompt_char_spec(euid),
{
    if euid == 0 {
        "#"
    } else {
        "$"
    }
}

/// The configuration of one prompt render. Every field has a default;
/// any subset may be overridden by the caller or by a theme.
pub struct Prompt {
    pub cwd_color: Color,
    pub git_branch_color: Color,
    pub git_status_clean_color: Color,
    pub git_status_unstaged_color: Color,
    pub git_status_staged_color: Color,
    pub git_status_clean_icon: &'static str,
    pub git_status_unstaged_icon: &'static str,
    pub git_status_staged_icon: &'static str,
    /// Shorten the current working directory, by only printing
    /// the first character of each but the last directory.
    pub shorten_cwd: bool,
    /// If provided, this string is used in place of the home directory
    /// when printing the current working directory.
    pub shorten_home_cwd: Option<&'static str>,
    /// Placed between the status block and the prompt character.
    pub separator: &'static str,
}

/// The icon fields hold their default glyphs.
pub open spec fn default_icons(p: Prompt) -> bool {
    p.git_status_clean_icon@ == "✓"@ && p.git_status_unstaged_icon@ == "×"@
        && p.git_status_staged_icon@ == "±"@
}

/// The shortening and separator fields hold their default values.
pub open spec fn default_layout(p: Prompt) -> bool {
    p.shorten_cwd == false && (p.shorten_home_cwd matches Some(t) && t@ == "~"@) && p.separator@
        == "\n"@
}

impl Default for Prompt {
    /// The default configuration.
    fn default() -> (r: Self)
        ensures
            r.cwd_color == Color::Cyan,
            r.git_branch_color == Color::Blue,
            r.git_status_clean_color == Color::Green,
            r.git_status_unstaged_color == Color::Red,
            r.git_status_staged_color == Color::Yellow,
            default_icons(r),
            default_layout(r),
    {
        Self {
            cwd_color: Color::Cyan,
            git_branch_color: Color::Blue,
            git_status_clean_color: Color::Green,
            git_status_unstaged_color: Color::Red,
            git_status_staged_color: Color::Yellow,
            git_status_clean_icon: "✓",
            git_status_unstaged_icon: "×",
            git_status_staged_icon: "±",
            shorten_cwd: false,
            shorten_home_cwd: Some("~"),
            separator: "\n",
        }
    }
}

/// The status icon the configuration selects for a category.
pub open spec fn status_icon(p: Prompt, st: GitStatus) -> Seq<char> {
    match st {
        GitStatus::Clean => p.git_status_clean_icon@,
        GitStatus::Unstaged => p.git_status_unstaged_icon@,
        GitStatus::Staged => p.git_status_staged_icon@,
    }
}

/// The status color the configuration selects for a category.
pub open spec fn status_color(p: Prompt, st: GitStatus) -> Color {
    match st {
        GitStatus::Clean => p.git_status_clean_color,
        GitStatus::Unstaged => p.git_status_unstaged_color,
        GitStatus::Staged => p.git_status_staged_color,
    }
}

/// The ghost view of a resolved status pair.
pub open spec fn vcs_view(v: Option<(String, GitStatus)>) -> Option<(Seq<char>, GitStatus)> {
    match v {
        Some(pair) => Some((pair.0@, pair.1)),
        None => None,
    }
}

/// The assembled prompt text: the colorized directory; with a repository,
/// the colorized branch label and the colorized status icon for the
/// category; then the separator; then the prompt character, uncolored by
/// design, with the single trailing space that keeps the next keystroke
/// off the prompt character.
pub open spec fn compose_spec(
    p: Prompt,
    cwd: Seq<char>,
    vcs: Option<(Seq<char>, GitStatus)>,
    euid: u32,
) -> Seq<char> {
    match vcs {
        Some(v) => colorize_spec(cwd, p.cwd_color) + seq![' '] + colorize_spec(
            v.0,
            p.git_branch_color,
        ) + seq![' '] + colorize_spec(status_icon(p, v.1), status_color(p, v.1)) + p.separator@
            + prompt_char_spec(euid) + seq![' '],
        None => colorize_spec(cwd, p.cwd_color) + p.separator@ + prompt_char_spec(euid)
            + seq![' '],
    }
}

/// The directory segment of a full render: the formatted path, or an
/// empty segment when the working directory was unavailable.
pub open spec fn render_cwd_spec(p: Prompt, cwd_path: Option<String>, home: Option<String>) -> Seq<
    char,
> {
    match cwd_path {
        Some(pa) => cwd_display_spec(
            pa@,
            opt_string_view(home),
            opt_str_view(p.shorten_home_cwd),
            p.shorten_cwd,
        ),
        None => Seq::<char>::empty(),
    }
}

impl Prompt {
    /// The default configuration with the named theme's color fields laid
    /// over it. A theme overrides exactly its five color fields; every
    /// icon, shortening and separator field keeps its default value.
    pub fn with_theme(theme: Theme) -> (r: Self)
        ensures
            theme == Theme::Nord ==> r.cwd_color == Color::RGB(0x88, 0xC0, 0xD0)
                && r.git_branch_color == Color::RGB(0x81, 0xA1, 0xC1) && r.git_status_clean_color
                == Color::RGB(0xA3, 0xBE, 0x8C) && r.git_status_unstaged_color == Color::RGB(
                0xBF,
                0x61,
                0x6A,
            ) && r.git_status_staged_color == Color::RGB(0xEB, 0xCB, 0x8B),
            theme == Theme::Solarized ==> r.cwd_color == Color::RGB(0x2A, 0xA1, 0x98)
                && r.git_branch_color == Color::RGB(0x26, 0x8B, 0xD2) && r.git_status_clean_color
                == Color::RGB(0x58, 0x6E, 0x75) && r.git_status_unstaged_color == Color::RGB(
                0xCB,
                0x4B,
                0x16,
            ) && r.git_status_staged_color == Color::RGB(0x65, 0x7B, 0x83),
            default_icons(r),
            default_layout(r),
    {
        match theme {
            Theme::Nord => {
                let nord_8 = Color::RGB(0x88, 0xC0, 0xD0);
                let nord_9 = Color::RGB(0x81, 0xA1, 0xC1);
                let nord_11 = Color::RGB(0xBF, 0x61, 0x6A);
                let nord_13 = Color::RGB(0xEB, 0xCB, 0x8B);
                let nord_14 = Color::RGB(0xA3, 0xBE, 0x8C);
                Self {
                    cwd_color: nord_8,
                    git_branch_color: nord_9,
                    git_status_clean_color: nord_14,
                    git_status_unstaged_color: nord_11,
                    git_status_staged_color: nord_13,
                    ..Self::default()
                }
            },
            Theme::Solarized => Self {
                cwd_color: Color::RGB(0x2A, 0xA1, 0x98),
                git_branch_color: Color::RGB(0x26, 0x8B, 0xD2),
                git_status_clean_color: Color::RGB(0x58, 0x6E, 0x75),
                git_status_unstaged_color: Color::RGB(0xCB, 0x4B, 0x16),
                git_status_staged_color: Color::RGB(0x65, 0x7B, 0x83),
                ..Self::default()
            },
        }
    }

    /// The displayed working-directory segment for `path` under this
    /// configuration's shortening options, with `home` the home directory
    /// as far as it is known.
    pub fn cwd(&self, path: &str, home: &Option<String>) -> (r: String)
        ensures
            r@ == cwd_display_spec(
                path@,
                opt_string_view(*home),
                opt_str_view(self.shorten_home_cwd),
                self.shorten_cwd,
            ),
    {
        format_cwd(path, home, self.shorten_home_cwd, self.shorten_cwd)
    }

    /// Assemble the final prompt text from the already-computed segments.
    pub fn compose(&self, cwd: &str, vcs: &Option<(String, GitStatus)>, euid: u32) -> (r: String)
        ensures
            r@ == compose_spec(*self, cwd@, vcs_view(*vcs), euid),
    {
        proof {
            reveal_strlit(" ");
        }
        let mut r = colorize(cwd, self.cwd_color);
        match vcs {
            Some(pair) => {
                r.append(" ");
                let branch = colorize(pair.0.as_str(), self.git_branch_color);
                r.append(branch.as_str());
                r.append(" ");
                let (icon, icon_color): (&str, Color) = match pair.1 {
                    GitStatus::Clean => (self.git_status_clean_icon, self.git_status_clean_color),
                    GitStatus::Unstaged => (
                        self.git_status_unstaged_icon,
                        self.git_status_unstaged_color,
                    ),
                    GitStatus::Staged => (
                        self.git_status_staged_icon,
                        self.git_status_staged_color,
                    ),
                };
                let status = colorize(icon, icon_color);
                r.append(status.as_str());
            },
            None => {},
        }
        r.append(self.separator);
        r.append(get_char(euid));
        r.append(" ");
        proof {
            assert(r@ =~= compose_spec(*self, cwd@, vcs_view(*vcs), euid));
        }
        r
    }

    /// One full render from the values read at the process boundary: the
    /// working directory path (or nothing when it was unavailable), the
    /// home directory, the logical working directory the repository walk
    /// starts from, and the effective user id. The directory and prompt
    /// character segments are exact; the repository segment reflects
    /// whatever the discovery and status queries found on disk.
    pub fn render(
        &self,
        cwd_path: &Option<String>,
        home: &Option<String>,
        pwd: &Option<String>,
        euid: u32,
    ) -> (r: String)
        ensures
            exists|vcs: Option<(Seq<char>, GitStatus)>|
                r@ == #[trigger] compose_spec(
                    *self,
                    render_cwd_spec(*self, *cwd_path, *home),
                    vcs,
                    euid,
                ),
    {
        let cwd_str: String = match cwd_path {
            Some(p) => self.cwd(p.as_str(), home),
            None => String::new(),
        };
        let vcs: Option<(String, GitStatus)> = match pwd {
            Some(p) => vcs_status(p.as_str()),
            None => None,
        };
        let r = self.compose(cwd_str.as_str(), &vcs, euid);
        proof {
            assert(cwd_str@ =~= render_cwd_spec(*self, *cwd_path, *home));
            assert(r@ == compose_spec(*self, cwd_str@, vcs_view(vcs), euid));
        }
        r
    }
}

} // verus!
