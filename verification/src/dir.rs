//! Formatting of the working-directory segment: home substitution,
//! directory shortening, and the ancestor walk used for discovery.

use vstd::prelude::*;
use crate::strutil::str_eq_str;
use crate::strutil::str_starts_with;

verus! {

/// Whether the home prefix of `p` is to be replaced: `p` is the home
/// directory itself, or lies strictly inside it. The descendant test
/// demands a separator right after the prefix, so a sibling directory
/// merely sharing a name prefix with home does not count.
pub open spec fn home_applies(p: Seq<char>, h: Seq<char>) -> bool {
    p == h || (p.len() > h.len() && p.subrange(0, h.len() as int) == h && p[h.len() as int] == '/')
}

/// The path with its home prefix replaced by the token, where that applies.
pub open spec fn home_subst_spec(p: Seq<char>, h: Seq<char>, t: Seq<char>) -> Seq<char> {
    if home_applies(p, h) {
        t + p.skip(h.len() as int)
    } else {
        p
    }
}

/// Replace exactly the home-directory prefix of `path` with `token`, and
/// only when `path` equals home or is a descendant of it.
pub fn substitute_home(path: &str, home: &str, token: &str) -> (r: String)
    ensures
        r@ == home_subst_spec(path@, home@, token@),
{
    let np = path.unicode_len();
    let nh = home.unicode_len();
    let applies: bool = if str_eq_str(path, home) {
        true
    } else if np > nh && str_starts_with(path, home) {
        path.get_char(nh) == '/'
    } else {
        false
    };
    if applies {
        let rest = path.substring_char(nh, np);
        let mut r = token.to_owned();
        r.append(rest);
        proof {
            assert(r@ =~= home_subst_spec(path@, home@, token@));
        }
        r
    } else {
        proof {
            assert(!home_applies(path@, home@));
        }
        path.to_owned()
    }
}

/// Law: with a home token configured, a path equal to or strictly inside
/// the home directory is displayed with the token in place of the home
/// prefix: the display begins with the token, and the raw prefix is gone.
pub proof fn lemma_home_token_applied(p: Seq<char>, h: Seq<char>, t: Seq<char>)
    requires
        home_applies(p, h),
    ensures
        home_subst_spec(p, h, t) == t + p.skip(h.len() as int),
        home_subst_spec(p, h, t).subrange(0, t.len() as int) == t,
{
    assert(home_subst_spec(p, h, t).subrange(0, t.len() as int) =~= t);
}

/// Law: a path that is not home and not strictly inside it — in
/// particular a sibling directory merely sharing a name prefix with home,
/// where the character after the shared prefix is not a separator — is
/// left untouched.
pub proof fn lemma_home_sibling_untouched(p: Seq<char>, h: Seq<char>, t: Seq<char>)
    requires
        p != h,
        p.len() > h.len() ==> (p.subrange(0, h.len() as int) != h || p[h.len() as int] != '/'),
    ensures
        home_subst_spec(p, h, t) == p,
{
}

/// How many separators `s` holds.
pub open spec fn slash_count(s: Seq<char>) -> nat
    decreases s.len(),
{
    if s.len() == 0 {
        0
    } else {
        slash_count(s.drop_last()) + (if s[s.len() - 1] == '/' {
            1nat
        } else {
            0nat
        })
    }
}

/// One pass of the shortening scan from position `i`, with `skip` set
/// after a kept ordinary character, `count` separators seen so far, and
/// `sections` separators in the whole path. A `.` or `/` is always kept
/// and re-arms keeping; a `~` is kept only while not skipping; any other
/// character is dropped while skipping, except in the final level
/// (`count == sections`), which is kept whole.
pub open spec fn shorten_rec(s: Seq<char>, i: int, skip: bool, count: nat, sections: nat) -> Seq<
    char,
>
    decreases s.len() - i,
{
    if i < 0 || i >= s.len() {
        Seq::empty()
    } else {
        let c = s[i];
        if c == '~' {
            if !skip {
                seq![c] + shorten_rec(s, i + 1, skip, count, sections)
            } else {
                shorten_rec(s, i + 1, skip, count, sections)
            }
        } else if c == '.' {
            seq![c] + shorten_rec(s, i + 1, false, count, sections)
        } else if c == '/' {
            seq![c] + shorten_rec(s, i + 1, false, count + 1, sections)
        } else {
            if skip && count < sections {
                shorten_rec(s, i + 1, skip, count, sections)
            } else {
                seq![c] + shorten_rec(s, i + 1, true, count, sections)
            }
        }
    }
}

/// The collapsed form of a path: every level before the last is
/// abbreviated to its leading character (dots kept), the last level is
/// kept whole.
pub open spec fn shorten_spec(s: Seq<char>) -> Seq<char> {
    shorten_rec(s, 0, false, 0, slash_count(s))
}

/// Relies on `tico::tico` with no home directory: a character-for-character
/// scan that always keeps `.` and `/`, keeps `~` only while not skipping,
/// and of any other run of characters keeps only the first, except in the
/// final slash-separated level, which is kept whole.
#[verifier::external_body]
fn tico_shorten(path: &str) -> (r: String)
    ensures
        r@ == shorten_spec(path@),
{
    tico::tico(path, None)
}

/// A path without separators and without tildes has no separators in any
/// of its prefixes either, so it counts zero sections.
proof fn lemma_no_slash_count(s: Seq<char>)
    requires
        forall|k: int| 0 <= k < s.len() ==> s[k] != '/',
    ensures
        slash_count(s) == 0,
    decreases s.len(),
{
    if s.len() > 0 {
        lemma_no_slash_count(s.drop_last());
    }
}

/// The scan copies the input verbatim once the final level is reached,
/// as long as no further separator or tilde appears.
proof fn lemma_shorten_rec_copies(s: Seq<char>, i: int, skip: bool, count: nat, sections: nat)
    requires
        0 <= i <= s.len(),
        count >= sections,
        forall|k: int| i <= k < s.len() ==> s[k] != '/' && s[k] != '~',
    ensures
        shorten_rec(s, i, skip, count, sections) == s.skip(i),
    decreases s.len() - i,
{
    if i == s.len() {
        assert(shorten_rec(s, i, skip, count, sections) =~= s.skip(i));
    } else {
        let c = s[i];
        if c == '.' {
            lemma_shorten_rec_copies(s, i + 1, false, count, sections);
        } else {
            lemma_shorten_rec_copies(s, i + 1, true, count, sections);
        }
        assert(shorten_rec(s, i, skip, count, sections) =~= s.skip(i));
    }
}

/// Law: directory-shortening leaves a single-level path — one holding no
/// separator and no tilde — unchanged.
pub proof fn lemma_shorten_single_segment(s: Seq<char>)
    requires
        forall|k: int| 0 <= k < s.len() ==> s[k] != '/' && s[k] != '~',
    ensures
        shorten_spec(s) == s,
{
    lemma_no_slash_count(s);
    lemma_shorten_rec_copies(s, 0, false, 0, slash_count(s));
    assert(s.skip(0) =~= s);
}

/// Separators add up over concatenation.
proof fn lemma_slash_count_concat(a: Seq<char>, b: Seq<char>)
    ensures
        slash_count(a + b) == slash_count(a) + slash_count(b),
    decreases b.len(),
{
    if b.len() == 0 {
        assert(a + b =~= a);
    } else {
        assert((a + b).drop_last() =~= a + b.drop_last());
        assert((a + b).last() == b.last());
        lemma_slash_count_concat(a, b.drop_last());
    }
}

/// A one-character sequence counts one separator exactly when it is one.
proof fn lemma_slash_count_single(c: char)
    ensures
        slash_count(seq![c]) == (if c == '/' {
            1nat
        } else {
            0nat
        }),
{
    assert(seq![c].drop_last() =~= Seq::<char>::empty());
    assert(seq![c].last() == c);
    assert(slash_count(Seq::<char>::empty()) == 0);
}

/// The scan keeps every separator and introduces none.
proof fn lemma_shorten_rec_slashes(s: Seq<char>, i: int, skip: bool, count: nat, sections: nat)
    requires
        0 <= i <= s.len(),
    ensures
        slash_count(shorten_rec(s, i, skip, count, sections)) == slash_count(s.skip(i)),
    decreases s.len() - i,
{
    if i == s.len() {
        assert(s.skip(i) =~= Seq::<char>::empty());
    } else {
        let c = s[i];
        assert(s.skip(i) =~= seq![c] + s.skip(i + 1));
        lemma_slash_count_concat(seq![c], s.skip(i + 1));
        lemma_slash_count_single(c);
        if c == '~' {
            lemma_shorten_rec_slashes(s, i + 1, skip, count, sections);
            if !skip {
                lemma_slash_count_concat(seq![c], shorten_rec(s, i + 1, skip, count, sections));
            }
        } else if c == '.' {
            lemma_shorten_rec_slashes(s, i + 1, false, count, sections);
            lemma_slash_count_concat(seq![c], shorten_rec(s, i + 1, false, count, sections));
        } else if c == '/' {
            lemma_shorten_rec_slashes(s, i + 1, false, count + 1, sections);
            lemma_slash_count_concat(seq![c], shorten_rec(s, i + 1, false, count + 1, sections));
        } else {
            if skip && count < sections {
                lemma_shorten_rec_slashes(s, i + 1, skip, count, sections);
            } else {
                lemma_shorten_rec_slashes(s, i + 1, true, count, sections);
                lemma_slash_count_concat(seq![c], shorten_rec(s, i + 1, true, count, sections));
            }
        }
    }
}

/// The scan from a position reads only the suffix from that position.
proof fn lemma_shorten_rec_shift(u: Seq<char>, j: int, skip: bool, count: nat, sections: nat)
    requires
        0 <= j <= u.len(),
    ensures
        shorten_rec(u, j, skip, count, sections) == shorten_rec(u.skip(j), 0, skip, count,
            sections,
        ),
    decreases u.len() - j,
{
    if j == u.len() {
    } else {
        let v = u.skip(j);
        assert(v[0] == u[j]);
        assert(v.skip(1) =~= u.skip(j + 1));
        let c = u[j];
        if c == '~' {
            lemma_shorten_rec_shift(u, j + 1, skip, count, sections);
            lemma_shorten_rec_shift(v, 1, skip, count, sections);
        } else if c == '.' {
            lemma_shorten_rec_shift(u, j + 1, false, count, sections);
            lemma_shorten_rec_shift(v, 1, false, count, sections);
        } else if c == '/' {
            lemma_shorten_rec_shift(u, j + 1, false, count + 1, sections);
            lemma_shorten_rec_shift(v, 1, false, count + 1, sections);
        } else {
            if skip && count < sections {
                lemma_shorten_rec_shift(u, j + 1, skip, count, sections);
                lemma_shorten_rec_shift(v, 1, skip, count, sections);
            } else {
                lemma_shorten_rec_shift(u, j + 1, true, count, sections);
                lemma_shorten_rec_shift(v, 1, true, count, sections);
            }
        }
    }
}

/// Scanning the scan's own output again, from the same state, copies it:
/// whatever the first pass kept, the second pass keeps too.
proof fn lemma_shorten_rec_idem(s: Seq<char>, i: int, skip: bool, count: nat, sections: nat)
    requires
        0 <= i <= s.len(),
    ensures
        shorten_rec(shorten_rec(s, i, skip, count, sections), 0, skip, count, sections)
            == shorten_rec(s, i, skip, count, sections),
    decreases s.len() - i,
{
    if i == s.len() {
    } else {
        let c = s[i];
        if c == '~' && skip {
            lemma_shorten_rec_idem(s, i + 1, skip, count, sections);
        } else if !(c == '~' || c == '.' || c == '/') && skip && count < sections {
            lemma_shorten_rec_idem(s, i + 1, skip, count, sections);
        } else {
            // the character is kept; the second pass meets it in the same
            // state and keeps it with the same state update
            let skip2: bool = if c == '~' {
                skip
            } else if c == '.' || c == '/' {
                false
            } else {
                true
            };
            let count2: nat = if c == '/' {
                count + 1
            } else {
                count
            };
            let tail = shorten_rec(s, i + 1, skip2, count2, sections);
            let t = seq![c] + tail;
            assert(shorten_rec(s, i, skip, count, sections) == t);
            assert(t.len() > 0);
            assert(t[0] == c);
            assert(t.skip(1) =~= tail);
            lemma_shorten_rec_shift(t, 1, skip2, count2, sections);
            lemma_shorten_rec_idem(s, i + 1, skip2, count2, sections);
            assert(shorten_rec(t, 0, skip, count, sections) == seq![c] + shorten_rec(
                t,
                1,
                skip2,
                count2,
                sections,
            ));
        }
    }
}

/// Law: the collapsing transform is idempotent — shortening an already
/// shortened path changes nothing, whatever the path.
pub proof fn lemma_shorten_idempotent(s: Seq<char>)
    ensures
        shorten_spec(shorten_spec(s)) == shorten_spec(s),
{
    let o = shorten_spec(s);
    lemma_shorten_rec_slashes(s, 0, false, 0, slash_count(s));
    assert(s.skip(0) =~= s);
    assert(slash_count(o) == slash_count(s));
    lemma_shorten_rec_idem(s, 0, false, 0, slash_count(s));
}

/// The scan never produces more characters than it reads.
proof fn lemma_shorten_rec_len(s: Seq<char>, i: int, skip: bool, count: nat, sections: nat)
    requires
        0 <= i <= s.len(),
    ensures
        shorten_rec(s, i, skip, count, sections).len() <= s.len() - i,
    decreases s.len() - i,
{
    if i < s.len() {
        let c = s[i];
        if c == '~' {
            lemma_shorten_rec_len(s, i + 1, skip, count, sections);
        } else if c == '.' {
            lemma_shorten_rec_len(s, i + 1, false, count, sections);
        } else if c == '/' {
            lemma_shorten_rec_len(s, i + 1, false, count + 1, sections);
        } else if skip && count < sections {
            lemma_shorten_rec_len(s, i + 1, skip, count, sections);
        } else {
            lemma_shorten_rec_len(s, i + 1, true, count, sections);
        }
    }
}

/// Law: on a path of several levels whose first level opens with two
/// ordinary characters, shortening is no identity — the second character
/// of the first level is dropped, so the result is strictly shorter. With
/// the single-level law this pins down where shortening can leave a path
/// unchanged.
pub proof fn lemma_shorten_shrinks_multi_segment(s: Seq<char>)
    requires
        slash_count(s) >= 1,
        s.len() >= 2,
        s[0] != '~' && s[0] != '.' && s[0] != '/',
        s[1] != '~' && s[1] != '.' && s[1] != '/',
    ensures
        shorten_spec(s).len() < s.len(),
{
    let sec = slash_count(s);
    assert(shorten_spec(s) == seq![s[0]] + shorten_rec(s, 1, true, 0, sec));
    assert(shorten_rec(s, 1, true, 0, sec) == shorten_rec(s, 2, true, 0, sec));
    lemma_shorten_rec_len(s, 2, true, 0, sec);
}

/// The ghost view of an optional owned string.
pub open spec fn opt_string_view(o: Option<String>) -> Option<Seq<char>> {
    match o {
        Some(s) => Some(s@),
        None => None,
    }
}

/// The ghost view of an optional string slice.
pub open spec fn opt_str_view(o: Option<&str>) -> Option<Seq<char>> {
    match o {
        Some(s) => Some(s@),
        None => None,
    }
}

/// The displayed working directory: the home prefix replaced by the token
/// where one is configured and the home directory is known, then the whole
/// collapsed when shortening is on. Substitution comes first, so the token
/// is an opaque first level during shortening.
pub open spec fn cwd_display_spec(
    p: Seq<char>,
    home: Option<Seq<char>>,
    token: Option<Seq<char>>,
    shorten: bool,
) -> Seq<char> {
    let p1 = if token is Some && home is Some {
        home_subst_spec(p, home->0, token->0)
    } else {
        p
    };
    if shorten {
        shorten_spec(p1)
    } else {
        p1
    }
}

/// Produce the displayed working-directory string for `path`.
pub fn format_cwd(
    path: &str,
    home: &Option<String>,
    token: Option<&str>,
    shorten: bool,
) -> (r: String)
    ensures
        r@ == cwd_display_spec(path@, opt_string_view(*home), opt_str_view(token), shorten),
{
    let substituted: String = match (token, home) {
        (Some(t), Some(h)) => substitute_home(path, h.as_str(), t),
        _ => path.to_owned(),
    };
    if shorten {
        tico_shorten(substituted.as_str())
    } else {
        substituted
    }
}

/// The index of the last separator in `s`, or -1 if there is none.
pub open spec fn last_slash(s: Seq<char>) -> int
    decreases s.len(),
{
    if s.len() == 0 {
        -1
    } else if s[s.len() - 1] == '/' {
        s.len() - 1
    } else {
        last_slash(s.drop_last())
    }
}

/// `last_slash` names a separator position with none after it, or -1 when
/// the path has no separator at all.
proof fn lemma_last_slash(s: Seq<char>)
    ensures
        last_slash(s) >= -1,
        last_slash(s) == -1 ==> forall|k: int| 0 <= k < s.len() ==> s[k] != '/',
        last_slash(s) >= 0 ==> 0 <= last_slash(s) < s.len() && s[last_slash(s)] == '/',
        last_slash(s) >= 0 ==> forall|k: int| last_slash(s) < k < s.len() ==> s[k] != '/',
    decreases s.len(),
{
    if s.len() > 0 && s[s.len() - 1] != '/' {
        lemma_last_slash(s.drop_last());
        assert(forall|k: int| 0 <= k < s.len() - 1 ==> s[k] == s.drop_last()[k]);
    }
}

/// The parent of a path: the path cut at its last separator, with a lone
/// leading separator kept, and none for a relative single level or the
/// root itself.
pub open spec fn parent_spec(s: Seq<char>) -> Option<Seq<char>> {
    let j = last_slash(s);
    if j == -1 {
        None
    } else if j == 0 {
        if s.len() == 1 {
            None
        } else {
            Some(seq!['/'])
        }
    } else {
        Some(s.subrange(0, j))
    }
}

/// The next path outward in the ancestor walk. A parent is always a
/// strict prefix of its child and strictly shorter, so the walk visits a
/// nested directory before every directory enclosing it, and terminates.
pub fn parent_dir(s: &str) -> (r: Option<String>)
    ensures
        (match r {
            Some(p) => parent_spec(s@) == Some(p@),
            None => parent_spec(s@) is None,
        }),
        r matches Some(p) ==> p@.len() < s@.len() && p@ == s@.subrange(0, p@.len() as int),
{
    proof {
        reveal_strlit("/");
        lemma_last_slash(s@);
    }
    let n = s.unicode_len();
    let mut i: usize = n;
    let mut found: bool = false;
    let mut j: usize = 0;
    while i > 0 && !found
        invariant
            n == s@.len(),
            0 <= i <= n,
            !found ==> forall|k: int| i <= k < n ==> s@[k] != '/',
            found ==> i < n && j == i && s@[j as int] == '/' && forall|k: int|
                j < k < n ==> s@[k] != '/',
        decreases i,
    {
        i -= 1;
        if s.get_char(i) == '/' {
            j = i;
            found = true;
        }
    }
    if !found {
        proof {
            assert(last_slash(s@) == -1) by {
                if last_slash(s@) >= 0 {
                    assert(s@[last_slash(s@)] == '/');
                }
            }
        }
        return None;
    }
    proof {
        let m = last_slash(s@);
        assert(m >= 0);
        assert(m == j as int) by {
            if m < j as int {
                assert(s@[j as int] == '/');
            }
            if m > j as int {
                assert(s@[m] == '/');
            }
        }
    }
    if j == 0 {
        if n == 1 {
            None
        } else {
            let r = "/".to_owned();
            proof {
                assert(r@ =~= seq!['/']);
                assert(r@ =~= s@.subrange(0, 1));
            }
            Some(r)
        }
    } else {
        let p = s.substring_char(0, j).to_owned();
        Some(p)
    }
}

} // verus!
