use libps1::color::colorize;
use libps1::dir::format_cwd;
use libps1::dir::parent_dir;
use libps1::dir::substitute_home;
use libps1::get_char;
use libps1::vcs::classify;
use libps1::vcs::divergence_marker;
use libps1::Color;
use libps1::GitStatus;
use libps1::Prompt;
use libps1::Theme;

const WT_MODIFIED: u32 = 0x0100;
const WT_NEW: u32 = 0x0080;
const INDEX_NEW: u32 = 0x0001;
const INDEX_MODIFIED: u32 = 0x0002;
const IGNORED: u32 = 0x4000;

#[test]
fn theme_parse_recognized() {
    assert_eq!(Theme::parse("nord"), Ok(Theme::Nord));
    assert_eq!(Theme::parse("solarized"), Ok(Theme::Solarized));
}

#[test]
fn theme_parse_unrecognized_is_error() {
    assert_eq!(
        Theme::parse("Nord"),
        Err("Expected one of: 'nord', 'solarized'")
    );
    assert!(Theme::parse("").is_err());
    assert!(Theme::parse("gruvbox").is_err());
    assert!("zenburn".parse::<Theme>().is_err());
    assert_eq!("nord".parse::<Theme>(), Ok(Theme::Nord));
}

#[test]
fn nord_overrides_only_its_five_colors() {
    let nord = Prompt::with_theme(Theme::Nord);
    let base = Prompt::default();
    assert_eq!(nord.cwd_color, Color::RGB(0x88, 0xC0, 0xD0));
    assert_eq!(nord.git_branch_color, Color::RGB(0x81, 0xA1, 0xC1));
    assert_eq!(nord.git_status_clean_color, Color::RGB(0xA3, 0xBE, 0x8C));
    assert_eq!(nord.git_status_unstaged_color, Color::RGB(0xBF, 0x61, 0x6A));
    assert_eq!(nord.git_status_staged_color, Color::RGB(0xEB, 0xCB, 0x8B));
    assert_eq!(nord.git_status_clean_icon, base.git_status_clean_icon);
    assert_eq!(nord.git_status_unstaged_icon, base.git_status_unstaged_icon);
    assert_eq!(nord.git_status_staged_icon, base.git_status_staged_icon);
    assert_eq!(nord.shorten_cwd, base.shorten_cwd);
    assert_eq!(nord.shorten_home_cwd, base.shorten_home_cwd);
    assert_eq!(nord.separator, base.separator);
}

#[test]
fn solarized_overrides_only_its_five_colors() {
    let sol = Prompt::with_theme(Theme::Solarized);
    let base = Prompt::default();
    assert_eq!(sol.cwd_color, Color::RGB(0x2A, 0xA1, 0x98));
    assert_eq!(sol.git_branch_color, Color::RGB(0x26, 0x8B, 0xD2));
    assert_eq!(sol.git_status_clean_color, Color::RGB(0x58, 0x6E, 0x75));
    assert_eq!(sol.git_status_unstaged_color, Color::RGB(0xCB, 0x4B, 0x16));
    assert_eq!(sol.git_status_staged_color, Color::RGB(0x65, 0x7B, 0x83));
    assert_eq!(sol.git_status_clean_icon, base.git_status_clean_icon);
    assert_eq!(sol.shorten_cwd, base.shorten_cwd);
    assert_eq!(sol.shorten_home_cwd, base.shorten_home_cwd);
    assert_eq!(sol.separator, base.separator);
}

#[test]
fn default_values() {
    let p = Prompt::default();
    assert_eq!(p.cwd_color, Color::Cyan);
    assert_eq!(p.git_branch_color, Color::Blue);
    assert_eq!(p.git_status_clean_color, Color::Green);
    assert_eq!(p.git_status_unstaged_color, Color::Red);
    assert_eq!(p.git_status_staged_color, Color::Yellow);
    assert_eq!(p.git_status_clean_icon, "✓");
    assert_eq!(p.git_status_unstaged_icon, "×");
    assert_eq!(p.git_status_staged_icon, "±");
    assert!(!p.shorten_cwd);
    assert_eq!(p.shorten_home_cwd, Some("~"));
    assert_eq!(p.separator, "\n");
}

#[test]
fn prompt_char_by_user_id() {
    assert_eq!(get_char(0), "#");
    assert_eq!(get_char(1), "$");
    assert_eq!(get_char(1000), "$");
}

#[test]
fn divergence_marker_orders_ahead_then_behind() {
    assert_eq!(divergence_marker(3, 2), " ↑ ↓");
    assert_eq!(divergence_marker(1, 0), " ↑");
    assert_eq!(divergence_marker(0, 1), " ↓");
    assert_eq!(divergence_marker(0, 0), "");
}

#[test]
fn classify_unstaged_wins_regardless_of_order() {
    assert_eq!(
        classify(&vec![WT_MODIFIED, INDEX_NEW]),
        GitStatus::Unstaged
    );
    assert_eq!(
        classify(&vec![INDEX_NEW, WT_MODIFIED]),
        GitStatus::Unstaged
    );
    assert_eq!(classify(&vec![WT_NEW]), GitStatus::Unstaged);
}

#[test]
fn classify_staged_and_clean() {
    assert_eq!(classify(&vec![INDEX_NEW]), GitStatus::Staged);
    assert_eq!(
        classify(&vec![IGNORED, INDEX_MODIFIED, IGNORED]),
        GitStatus::Staged
    );
    assert_eq!(classify(&vec![]), GitStatus::Clean);
    assert_eq!(classify(&vec![IGNORED, 0]), GitStatus::Clean);
}

#[test]
fn classify_mixed_entry_counts_as_unstaged() {
    assert_eq!(
        classify(&vec![WT_MODIFIED | INDEX_NEW]),
        GitStatus::Unstaged
    );
}

#[test]
fn home_substitution_inside_home() {
    assert_eq!(
        substitute_home("/home/alice/app", "/home/alice", "~"),
        "~/app"
    );
    assert_eq!(substitute_home("/home/alice", "/home/alice", "~"), "~");
}

#[test]
fn home_substitution_skips_sibling_with_shared_prefix() {
    assert_eq!(
        substitute_home("/home/alicexyz", "/home/alice", "~"),
        "/home/alicexyz"
    );
    assert_eq!(substitute_home("/home/ali", "/home/alice", "~"), "/home/ali");
}

#[test]
fn shorten_collapses_ancestor_segments() {
    assert_eq!(
        format_cwd("/home/alice/projects/app", &None, None, true),
        "/h/a/p/app"
    );
}

#[test]
fn shorten_leaves_single_segment() {
    assert_eq!(format_cwd("app", &None, None, true), "app");
}

#[test]
fn shorten_shrinks_multi_segment_paths() {
    assert_eq!(format_cwd("/tmp/my_dir/foo", &None, None, true), "/t/m/foo");
    assert!(format_cwd("/tmp/my_dir/foo", &None, None, true).len() < "/tmp/my_dir/foo".len());
}

#[test]
fn shorten_is_idempotent_on_its_output() {
    let once = format_cwd("/home/alice/projects/app", &None, None, true);
    let twice = format_cwd(&once, &None, None, true);
    assert_eq!(twice, once);
    let dotted_once = format_cwd("/home/.config/htop", &None, None, true);
    let dotted_twice = format_cwd(&dotted_once, &None, None, true);
    assert_eq!(dotted_once, "/h/.c/htop");
    assert_eq!(dotted_twice, dotted_once);
}

#[test]
fn home_substitution_runs_before_shortening() {
    let home = Some(String::from("/home/alice"));
    assert_eq!(
        format_cwd("/home/alice/projects/app", &home, Some("~"), true),
        "~/p/app"
    );
}

#[test]
fn parent_walks_outward() {
    assert_eq!(parent_dir("/a/b"), Some(String::from("/a")));
    assert_eq!(parent_dir("/a"), Some(String::from("/")));
    assert_eq!(parent_dir("/"), None);
    assert_eq!(parent_dir("a"), None);
    assert_eq!(parent_dir("a/b"), Some(String::from("a")));
}

#[test]
fn colorize_brackets_only_the_escapes() {
    assert_eq!(
        colorize("x", Color::Cyan),
        "\u{1}\u{1b}[36m\u{2}x\u{1}\u{1b}[0m\u{2}"
    );
    assert_eq!(
        colorize("dir", Color::RGB(136, 192, 208)),
        "\u{1}\u{1b}[38;2;136;192;208m\u{2}dir\u{1}\u{1b}[0m\u{2}"
    );
    assert_eq!(
        colorize("", Color::Fixed(7)),
        "\u{1}\u{1b}[38;5;7m\u{2}\u{1}\u{1b}[0m\u{2}"
    );
}

#[test]
fn compose_without_repository() {
    let p = Prompt::default();
    let out = p.compose("~/app", &None, 1000);
    let expected = format!("{}\n$ ", colorize("~/app", Color::Cyan));
    assert_eq!(out, expected);
}

#[test]
fn compose_with_clean_repository_on_main() {
    let p = Prompt::default();
    let vcs = Some((String::from("main"), GitStatus::Clean));
    let out = p.compose("~/app", &vcs, 1000);
    let expected = format!(
        "{} {} {}\n$ ",
        colorize("~/app", Color::Cyan),
        colorize("main", Color::Blue),
        colorize("✓", Color::Green)
    );
    assert_eq!(out, expected);
    let tail = format!(" {}\n$ ", colorize("✓", Color::Green));
    assert!(out.ends_with(&tail));
}

#[test]
fn compose_picks_icon_and_color_by_category() {
    let p = Prompt::default();
    let unstaged = p.compose("d", &Some((String::from("b"), GitStatus::Unstaged)), 1000);
    assert!(unstaged.contains(&colorize("×", Color::Red)));
    let staged = p.compose("d", &Some((String::from("b"), GitStatus::Staged)), 1000);
    assert!(staged.contains(&colorize("±", Color::Yellow)));
}

#[test]
fn render_outside_any_repository() {
    let p = Prompt::default();
    let out = p.render(
        &Some(String::from("/home/alice/app")),
        &Some(String::from("/home/alice")),
        &None,
        1000,
    );
    let expected = format!("{}\n$ ", colorize("~/app", Color::Cyan));
    assert_eq!(out, expected);
}

#[test]
fn render_with_unavailable_directory_keeps_going() {
    let p = Prompt::default();
    let out = p.render(&None, &None, &None, 1000);
    let expected = format!("{}\n$ ", colorize("", Color::Cyan));
    assert_eq!(out, expected);
}
