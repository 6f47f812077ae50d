//! Repository discovery, status classification, and divergence markers.

use vstd::prelude::*;
use crate::dir::parent_dir;

verus! {

/// How the repository's working tree relates to its index and history,
/// ordered by severity: `Unstaged` > `Staged` > `Clean`.
#[derive(Clone, Copy, PartialEq, Eq, Structural, Debug)]
pub enum GitStatus {
    Clean,
    /// Has some unstaged change in the working tree.
    Unstaged,
    /// All changes are staged in the index.
    Staged,
}

/// The status bits that mark a working-tree-level change: a file new,
/// modified, deleted, type-changed, or renamed relative to the index
/// (git2's `WT_NEW`, `WT_MODIFIED`, `WT_DELETED`, `WT_TYPECHANGE`,
/// `WT_RENAMED`).
pub const WT_CHANGE_MASK: u32 = 0x0080 | 0x0100 | 0x0200 | 0x0400 | 0x0800;

/// The status bits that mark an index-level change: a file staged as new,
/// modified, deleted, renamed, or type-changed (git2's `INDEX_NEW`,
/// `INDEX_MODIFIED`, `INDEX_DELETED`, `INDEX_RENAMED`,
/// `INDEX_TYPECHANGE`).
pub const INDEX_CHANGE_MASK: u32 = 0x0001 | 0x0002 | 0x0004 | 0x0008 | 0x0010;

/// Whether a raw status word indicates a working-tree-level change.
pub open spec fn wt_change(bits: u32) -> bool {
    bits & WT_CHANGE_MASK != 0
}

/// Whether a raw status word indicates an index-level change.
pub open spec fn index_change(bits: u32) -> bool {
    bits & INDEX_CHANGE_MASK != 0
}

/// The scan over status entries, carrying the category found so far: a
/// working-tree change ends the scan at `Unstaged` at once; an index
/// change raises the category to `Staged` and the scan goes on; any other
/// entry changes nothing.
pub open spec fn classify_from(entries: Seq<u32>, cur: GitStatus) -> GitStatus
    decreases entries.len(),
{
    if entries.len() == 0 {
        cur
    } else if wt_change(entries[0]) {
        GitStatus::Unstaged
    } else if index_change(entries[0]) {
        classify_from(entries.skip(1), GitStatus::Staged)
    } else {
        classify_from(entries.skip(1), cur)
    }
}

/// The category of a repository whose entries carry these status words.
pub open spec fn classify_spec(entries: Seq<u32>) -> GitStatus {
    classify_from(entries, GitStatus::Clean)
}

/// Scan raw status words and classify the repository, short-circuiting on
/// the first working-tree change.
pub fn classify(entries: &Vec<u32>) -> (r: GitStatus)
    ensures
        r == classify_spec(entries@),
{
    let n = entries.len();
    let mut st = GitStatus::Clean;
    let mut i: usize = 0;
    proof {
        assert(entries@.skip(0) =~= entries@);
    }
    while i < n
        invariant
            0 <= i <= n,
            n == entries@.len(),
            classify_spec(entries@) == classify_from(entries@.skip(i as int), st),
        decreases n - i,
    {
        let b = entries[i];
        proof {
            assert(entries@.skip(i as int)[0] == entries@[i as int]);
            assert(entries@.skip(i as int).skip(1) =~= entries@.skip(i as int + 1));
        }
        if b & WT_CHANGE_MASK != 0 {
            return GitStatus::Unstaged;
        } else if b & INDEX_CHANGE_MASK != 0 {
            st = GitStatus::Staged;
        }
        i += 1;
    }
    proof {
        assert(entries@.skip(n as int).len() == 0);
    }
    st
}

/// The scan's outcome, stated without its order: starting below
/// `Unstaged`, it lands on `Unstaged` exactly when some entry carries a
/// working-tree change, else on `Staged` exactly when some entry carries
/// an index change, else stays where it started.
proof fn lemma_classify_from_characterization(entries: Seq<u32>, cur: GitStatus)
    requires
        cur != GitStatus::Unstaged,
    ensures
        classify_from(entries, cur) == (if exists|k: int|
            0 <= k < entries.len() && wt_change(entries[k]) {
            GitStatus::Unstaged
        } else if exists|k: int| 0 <= k < entries.len() && index_change(entries[k]) {
            GitStatus::Staged
        } else {
            cur
        }),
    decreases entries.len(),
{
    if entries.len() == 0 {
    } else {
        let rest = entries.skip(1);
        assert(forall|k: int| 0 <= k < rest.len() ==> rest[k] == entries[k + 1]);
        if wt_change(entries[0]) {
            assert(exists|k: int| 0 <= k < entries.len() && wt_change(entries[k])) by {
                assert(wt_change(entries[0]));
            }
        } else {
            assert((exists|k: int| 0 <= k < rest.len() && wt_change(rest[k])) <==> (exists|k: int|
                0 <= k < entries.len() && wt_change(entries[k]))) by {
                if exists|k: int| 0 <= k < rest.len() && wt_change(rest[k]) {
                    let k = choose|k: int| 0 <= k < rest.len() && wt_change(rest[k]);
                    assert(wt_change(entries[k + 1]));
                }
                if exists|k: int| 0 <= k < entries.len() && wt_change(entries[k]) {
                    let k = choose|k: int| 0 <= k < entries.len() && wt_change(entries[k]);
                    assert(k >= 1);
                    assert(wt_change(rest[k - 1]));
                }
            }
            if index_change(entries[0]) {
                lemma_classify_from_characterization(rest, GitStatus::Staged);
                assert(exists|k: int| 0 <= k < entries.len() && index_change(entries[k])) by {
                    assert(index_change(entries[0]));
                }
            } else {
                lemma_classify_from_characterization(rest, cur);
                assert((exists|k: int| 0 <= k < rest.len() && index_change(rest[k])) <==> (exists|
                    k: int,
                |
                    0 <= k < entries.len() && index_change(entries[k]))) by {
                    if exists|k: int| 0 <= k < rest.len() && index_change(rest[k]) {
                        let k = choose|k: int| 0 <= k < rest.len() && index_change(rest[k]);
                        assert(index_change(entries[k + 1]));
                    }
                    if exists|k: int| 0 <= k < entries.len() && index_change(entries[k]) {
                        let k = choose|k: int| 0 <= k < entries.len() && index_change(entries[k]);
                        assert(k >= 1);
                        assert(index_change(rest[k - 1]));
                    }
                }
            }
        }
    }
}

/// Law: the final category does not depend on where the changes stand in
/// the scan, only on which kinds occur — any working-tree change yields
/// `Unstaged` whatever else is present; otherwise any index change yields
/// `Staged`; otherwise the repository is `Clean`.
pub proof fn lemma_classify_characterization(entries: Seq<u32>)
    ensures
        classify_spec(entries) == (if exists|k: int|
            0 <= k < entries.len() && wt_change(entries[k]) {
            GitStatus::Unstaged
        } else if exists|k: int| 0 <= k < entries.len() && index_change(entries[k]) {
            GitStatus::Staged
        } else {
            GitStatus::Clean
        }),
{
    lemma_classify_from_characterization(entries, GitStatus::Clean);
}

/// The divergence marker for the given directions: the ahead glyph when
/// ahead, then the behind glyph when behind, each with a leading space;
/// when both hold the ahead glyph always comes first.
pub open spec fn marker_spec(ahead: bool, behind: bool) -> Seq<char> {
    (if ahead {
        seq![' ', '↑']
    } else {
        Seq::<char>::empty()
    }) + (if behind {
        seq![' ', '↓']
    } else {
        Seq::<char>::empty()
    })
}

/// Build the divergence marker from the ahead and behind commit counts.
pub fn divergence_marker(ahead: usize, behind: usize) -> (r: String)
    ensures
        r@ == marker_spec(ahead > 0, behind > 0),
{
    proof {
        reveal_strlit(" ↑");
        reveal_strlit(" ↓");
    }
    let mut r = String::new();
    if ahead > 0 {
        r.append(" ↑");
    }
    if behind > 0 {
        r.append(" ↓");
    }
    proof {
        assert(r@ =~= marker_spec(ahead > 0, behind > 0));
    }
    r
}

#[verifier::external_type_specification]
#[verifier::external_body]
pub struct ExRepository(git2::Repository);

#[verifier::external_type_specification]
#[verifier::external_body]
pub struct ExReference<'a>(git2::Reference<'a>);

#[verifier::external_type_specification]
#[verifier::external_body]
pub struct ExBranch<'a>(git2::Branch<'a>);

#[verifier::external_type_specification]
#[verifier::external_body]
pub struct ExOid(git2::Oid);

/// Relies on `git2::Repository::open`: succeeds exactly when a repository
/// lies at `path`; the outcome depends on what is on disk.
#[verifier::external_body]
fn repo_open(path: &str) -> Option<git2::Repository> {
    git2::Repository::open(path).ok()
}

/// Relies on `git2::Repository::head`: the current reference, or nothing
/// for a repository with no commit-bearing reference.
#[verifier::external_body]
fn repo_head<'r>(repo: &'r git2::Repository) -> Option<git2::Reference<'r>> {
    repo.head().ok()
}

/// Relies on `git2::Reference::is_branch`: whether the reference is a
/// local branch.
#[verifier::external_body]
fn ref_is_branch(r: &git2::Reference<'_>) -> bool {
    r.is_branch()
}

/// Relies on `git2::Reference::shorthand`: the short human-readable
/// branch name, or nothing when it is not valid text.
#[verifier::external_body]
fn ref_shorthand(r: &git2::Reference<'_>) -> Option<String> {
    match r.shorthand() {
        Ok(s) => Some(s.to_owned()),
        Err(_) => None,
    }
}

/// Relies on `git2::Reference::peel_to_commit`, `git2::Commit::id`, and
/// `git2::Oid`'s hex display, which honors the six-character precision:
/// the first six hex characters of the current commit identifier.
#[verifier::external_body]
fn ref_commit_hex6(r: &git2::Reference<'_>) -> (res: Option<String>)
    ensures
        res matches Some(s) ==> s@.len() == 6,
{
    match r.peel_to_commit() {
        Ok(c) => Some(format!("{:.6}", c.id())),
        Err(_) => None,
    }
}

/// Relies on `git2::Reference::target`: the object id of a direct
/// reference.
#[verifier::external_body]
fn ref_target(r: &git2::Reference<'_>) -> Option<git2::Oid> {
    r.target()
}

/// Relies on `git2::Repository::find_branch` with the local branch kind.
#[verifier::external_body]
fn find_local_branch<'r>(repo: &'r git2::Repository, name: &str) -> Option<git2::Branch<'r>> {
    repo.find_branch(name, git2::BranchType::Local).ok()
}

/// Relies on `git2::Branch::upstream`: the tracked remote-tracking
/// branch, where one is configured.
#[verifier::external_body]
fn branch_upstream<'r>(b: &git2::Branch<'r>) -> Option<git2::Branch<'r>> {
    b.upstream().ok()
}

/// Relies on `git2::Branch::get` and `git2::Reference::target`: the
/// object id the branch points at.
#[verifier::external_body]
fn branch_target(b: &git2::Branch<'_>) -> Option<git2::Oid> {
    b.get().target()
}

/// Relies on `git2::Repository::graph_ahead_behind`: the count of commits
/// reachable from the first id but not the second, and the reverse.
#[verifier::external_body]
fn graph_ahead_behind(repo: &git2::Repository, local: git2::Oid, upstream: git2::Oid) -> Option<
    (usize, usize),
> {
    repo.graph_ahead_behind(local, upstream).ok()
}

/// Relies on `git2::Repository::statuses` with default options,
/// `git2::StatusEntry::status` and `git2::Status::bits`: the raw status
/// word of each file-level entry, in source order.
#[verifier::external_body]
fn status_bits(repo: &git2::Repository) -> Option<Vec<u32>> {
    let statuses = match repo.statuses(None) {
        Ok(s) => s,
        Err(_) => return None,
    };
    let mut v: Vec<u32> = Vec::new();
    for e in statuses.iter() {
        v.push(e.status().bits());
    }
    Some(v)
}

/// Walk `pwd` and its ancestors outward from the deepest component and
/// open the first repository found, so a nested repository is found
/// before any repository enclosing it; nothing when no ancestor holds
/// one. Each step moves to a strictly shorter ancestor, so the walk
/// terminates.
fn discover(pwd: &str) -> Option<git2::Repository> {
    let mut cur: String = pwd.to_owned();
    loop
        decreases cur@.len(),
    {
        match repo_open(cur.as_str()) {
            Some(r) => { return Some(r) },
            None => {},
        }
        match parent_dir(cur.as_str()) {
            Some(p) => { cur = p },
            None => { return None },
        }
    }
}

/// Divergence of the checked-out branch against its tracked upstream:
/// commits ahead and behind. Nothing when the head is not a named branch,
/// no upstream is tracked, or any lookup fails — those are soft failures,
/// not errors.
fn get_ahead_behind(repo: &git2::Repository) -> Option<(usize, usize)> {
    let head = match repo_head(repo) {
        Some(h) => h,
        None => { return None },
    };
    if !ref_is_branch(&head) {
        return None;
    }
    let name = match ref_shorthand(&head) {
        Some(n) => n,
        None => { return None },
    };
    let branch = match find_local_branch(repo, name.as_str()) {
        Some(b) => b,
        None => { return None },
    };
    let upstream = match branch_upstream(&branch) {
        Some(u) => u,
        None => { return None },
    };
    let head_oid = match ref_target(&head) {
        Some(o) => o,
        None => { return None },
    };
    let up_oid = match branch_target(&upstream) {
        Some(o) => o,
        None => { return None },
    };
    graph_ahead_behind(repo, head_oid, up_oid)
}

/// Resolve the repository enclosing `pwd`: the branch label — the branch
/// short name, or the first six hex characters of the commit id when the
/// head is detached, either with the divergence marker appended — and the
/// status category. `None` when no enclosing repository is found, or a
/// hard failure reading the head or the status entries follows a
/// successful discovery.
pub fn vcs_status(pwd: &str) -> (r: Option<(String, GitStatus)>)
    ensures
        r matches Some(pair) ==> exists|base: Seq<char>, ahead: bool, behind: bool|
            pair.0@ == base + marker_spec(ahead, behind),
{
    let repo = match discover(pwd) {
        Some(r) => r,
        None => { return None },
    };
    let ab = get_ahead_behind(&repo);
    let marker = match ab {
        Some((a, b)) => divergence_marker(a, b),
        None => String::new(),
    };
    proof {
        assert(exists|a: bool, b: bool| marker@ == marker_spec(a, b)) by {
            if ab is None {
                assert(marker@ =~= marker_spec(false, false));
            }
        }
    }
    let head = match repo_head(&repo) {
        Some(h) => h,
        None => { return None },
    };
    let base = if ref_is_branch(&head) {
        match ref_shorthand(&head) {
            Some(n) => n,
            None => { return None },
        }
    } else {
        match ref_commit_hex6(&head) {
            Some(h) => h,
            None => { return None },
        }
    };
    let label = base.concat(marker.as_str());
    let bits = match status_bits(&repo) {
        Some(b) => b,
        None => { return None },
    };
    let status = classify(&bits);
    proof {
        let (a, b) = choose|a: bool, b: bool| marker@ == marker_spec(a, b);
        assert(label@ == base@ + marker_spec(a, b));
    }
    Some((label, status))
}

} // verus!

