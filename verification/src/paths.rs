//! Translation between the plugin's restricted filesystem view (a single
//! mount point exposing the real host filesystem) and real host-absolute
//! paths, plus the display form of a path (home directory abbreviated, last
//! segment extracted).

use vstd::prelude::*;

verus! {

/// Errors from translating between the restricted view and real host paths.
#[derive(Clone, Copy, PartialEq, Eq, Structural, Debug)]
pub enum PathError {
    /// The given path is not prefixed by the sandbox mount point.
    NotUnderSandbox,
}

/// The relative form of a path: the same path with one leading separator
/// removed, if there is one.
pub open spec fn rel_of(p: Seq<char>) -> Seq<char> {
    if p.len() > 0 && p[0] == '/' {
        p.subrange(1, p.len() as int)
    } else {
        p
    }
}

/// The sandbox form of a real path: its relative form joined under the
/// sandbox root.
pub open spec fn sandbox_form(p: Seq<char>, root: Seq<char>) -> Seq<char> {
    root + seq!['/'] + rel_of(p)
}

/// The real form of a sandbox path whose prefix is the sandbox root: the
/// remainder after the root, re-rooted at `/`.
pub open spec fn real_form(sp: Seq<char>, root: Seq<char>) -> Seq<char> {
    let rem = sp.subrange(root.len() as int, sp.len() as int);
    if rem.len() > 0 && rem[0] == '/' {
        rem
    } else {
        seq!['/'] + rem
    }
}

/// Joins a path under the sandbox root, treating the input as relative
/// (a single leading separator, if any, is stripped first). Never fails.
pub fn to_sandbox(p: &str, root: &str) -> (r: String)
    ensures
        r@ == sandbox_form(p@, root@),
{
    let n = p.unicode_len();
    let rel: &str = if n > 0 && p.get_char(0) == '/' {
        p.substring_char(1, n)
    } else {
        p
    };
    let r = root.to_owned().concat("/").concat(rel);
    proof {
        reveal_strlit("/");
        assert("/"@ =~= seq!['/']);
        assert(r@ =~= sandbox_form(p@, root@));
    }
    r
}

/// Whether `pre` is a prefix of `s`, decided character by character.
pub fn is_prefix(pre: &str, s: &str) -> (b: bool)
    ensures
        b == pre@.is_prefix_of(s@),
{
    let pn = pre.unicode_len();
    let sn = s.unicode_len();
    if pn > sn {
        return false;
    }
    let mut i: usize = 0;
    while i < pn
        invariant
            0 <= i <= pn <= sn,
            pn == pre@.len(),
            sn == s@.len(),
            forall|k: int| 0 <= k < i ==> s@[k] == pre@[k],
        decreases pn - i,
    {
        if s.get_char(i) != pre.get_char(i) {
            proof {
                assert(s@.subrange(0, pn as int)[i as int] != pre@[i as int]);
            }
            return false;
        }
        i += 1;
    }
    proof {
        assert(s@.subrange(0, pn as int) =~= pre@);
    }
    true
}

/// Translates a sandbox path back to a real host path: requires the sandbox
/// root as a prefix, strips it, and re-roots the remainder at `/`. Any path
/// not under the root is rejected, and only such a path is.
pub fn to_real(sp: &str, root: &str) -> (r: Result<String, PathError>)
    ensures
        root@.is_prefix_of(sp@) ==> (r matches Ok(v) && v@ == real_form(sp@, root@)),
        !root@.is_prefix_of(sp@) ==> r == Err::<String, PathError>(PathError::NotUnderSandbox),
{
    if !is_prefix(root, sp) {
        return Err(PathError::NotUnderSandbox);
    }
    let rn = root.unicode_len();
    let sn = sp.unicode_len();
    proof {
        assert(root@.len() <= sp@.len());
    }
    let rem = sp.substring_char(rn, sn);
    if rem.unicode_len() > 0 && rem.get_char(0) == '/' {
        Ok(rem.to_owned())
    } else {
        let r = String::from_str("/").concat(rem);
        proof {
            reveal_strlit("/");
            assert("/"@ =~= seq!['/']);
            assert(r@ =~= real_form(sp@, root@));
        }
        Ok(r)
    }
}

/// The sandbox form of any path lies under the root, so translating it back
/// never fails.
pub proof fn lemma_sandbox_under_root(p: Seq<char>, root: Seq<char>)
    ensures
        root.is_prefix_of(sandbox_form(p, root)),
{
    assert(sandbox_form(p, root).subrange(0, root.len() as int) =~= root);
}

/// Taking a real absolute path into the sandbox and back out again yields the
/// original path: the sandbox form is always under the root, and its real
/// form is the path itself.
pub proof fn lemma_path_round_trip(p: Seq<char>, root: Seq<char>)
    requires
        p.len() > 0,
        p[0] == '/',
    ensures
        root.is_prefix_of(sandbox_form(p, root)),
        real_form(sandbox_form(p, root), root) == p,
{
    let sp = sandbox_form(p, root);
    assert(sp.subrange(0, root.len() as int) =~= root);
    let rem = sp.subrange(root.len() as int, sp.len() as int);
    assert(rem =~= seq!['/'] + rel_of(p));
    assert(rem[0] == '/');
    assert(rem =~= p);
}

/// The home-directory pattern's first alternative: `/Users/`.
pub open spec fn users_marker() -> Seq<char> {
    seq!['/', 'U', 's', 'e', 'r', 's', '/']
}

/// The home-directory pattern's second alternative: `/home/`.
pub open spec fn home_marker() -> Seq<char> {
    seq!['/', 'h', 'o', 'm', 'e', '/']
}

/// Whether `pat` occurs in `s` starting at index `i`.
pub open spec fn matches_at(s: Seq<char>, i: int, pat: Seq<char>) -> bool {
    0 <= i && i + pat.len() <= s.len() && s.subrange(i, i + pat.len()) == pat
}

/// Whether a home-directory segment (`/Users/<name>` or `/home/<name>`)
/// starts at index `i` of `s`.
pub open spec fn is_home_at(s: Seq<char>, i: int) -> bool {
    matches_at(s, i, users_marker()) || matches_at(s, i, home_marker())
}

/// The length of the marker part of the home-directory segment at `i`.
pub open spec fn home_marker_len(s: Seq<char>, i: int) -> int {
    if matches_at(s, i, users_marker()) {
        users_marker().len() as int
    } else {
        home_marker().len() as int
    }
}

/// The first index at or after `j` holding a separator, or the end of `s`:
/// the user name after a home marker extends to here.
pub open spec fn run_end(s: Seq<char>, j: int) -> int
    recommends
        0 <= j <= s.len(),
    decreases s.len() - j when 0 <= j <= s.len()
{
    if j >= s.len() || s[j] == '/' {
        j
    } else {
        run_end(s, j + 1)
    }
}

/// The first index at or after `i` where a home-directory segment starts,
/// if any.
pub open spec fn first_home_from(s: Seq<char>, i: int) -> Option<int>
    recommends
        0 <= i <= s.len(),
    decreases s.len() - i when 0 <= i <= s.len()
{
    if i >= s.len() {
        None
    } else if is_home_at(s, i) {
        Some(i)
    } else {
        first_home_from(s, i + 1)
    }
}

/// The display form of a path: the leftmost home-directory segment (the
/// marker and the whole user name after it) replaced by `~`; the path
/// unchanged when no such segment occurs.
pub open spec fn abbrev_home(s: Seq<char>) -> Seq<char> {
    match first_home_from(s, 0) {
        Some(i) => s.subrange(0, i) + seq!['~'] + s.subrange(
            run_end(s, i + home_marker_len(s, i)),
            s.len() as int,
        ),
        None => s,
    }
}

proof fn lemma_first_home_found(s: Seq<char>, j: int, i: int)
    requires
        0 <= j <= i < s.len(),
        is_home_at(s, i),
        forall|k: int| j <= k < i ==> !is_home_at(s, k),
    ensures
        first_home_from(s, j) == Some(i),
    decreases i - j,
{
    if j < i {
        lemma_first_home_found(s, j + 1, i);
    }
}

proof fn lemma_first_home_absent(s: Seq<char>, j: int)
    requires
        0 <= j <= s.len(),
        forall|k: int| j <= k < s.len() ==> !is_home_at(s, k),
    ensures
        first_home_from(s, j) == None::<int>,
    decreases s.len() - j,
{
    if j < s.len() {
        lemma_first_home_absent(s, j + 1);
    }
}

proof fn lemma_run_end_at(s: Seq<char>, j0: int, j: int)
    requires
        0 <= j0 <= j <= s.len(),
        forall|k: int| j0 <= k < j ==> s[k] != '/',
        j == s.len() || s[j] == '/',
    ensures
        run_end(s, j0) == j,
    decreases j - j0,
{
    if j0 < j {
        lemma_run_end_at(s, j0 + 1, j);
    }
}

/// Whether `pat` occurs in `s` starting at index `i`, decided character by
/// character.
fn occurs_at(s: &str, i: usize, pat: &str) -> (b: bool)
    requires
        i <= s@.len(),
    ensures
        b == matches_at(s@, i as int, pat@),
{
    let sn = s.unicode_len();
    let pn = pat.unicode_len();
    if pn > sn - i {
        return false;
    }
    let mut k: usize = 0;
    while k < pn
        invariant
            0 <= k <= pn,
            i + pn <= sn,
            pn == pat@.len(),
            sn == s@.len(),
            forall|t: int| 0 <= t < k ==> s@[i + t] == pat@[t],
        decreases pn - k,
    {
        if s.get_char(i + k) != pat.get_char(k) {
            proof {
                assert(s@.subrange(i as int, i + pn)[k as int] != pat@[k as int]);
            }
            return false;
        }
        k += 1;
    }
    proof {
        assert(s@.subrange(i as int, i + pn) =~= pat@);
    }
    true
}

/// The display transform: replaces the leftmost home-directory segment
/// (`/Users/<name>` or `/home/<name>`) with `~`; a path with no such
/// segment comes back unchanged. Display only — never an identity key.
pub fn prettify(p: &str) -> (r: String)
    ensures
        r@ == abbrev_home(p@),
{
    let n = p.unicode_len();
    let mut i: usize = 0;
    while i < n
        invariant
            0 <= i <= n,
            n == p@.len(),
            forall|k: int| 0 <= k < i ==> !is_home_at(p@, k),
        decreases n - i,
    {
        proof {
            reveal_strlit("/Users/");
            reveal_strlit("/home/");
            assert("/Users/"@ =~= users_marker());
            assert("/home/"@ =~= home_marker());
        }
        let on_users = occurs_at(p, i, "/Users/");
        let on_home = occurs_at(p, i, "/home/");
        if on_users || on_home {
            let marker: usize = if on_users {
                7
            } else {
                6
            };
            proof {
                assert(marker as int == home_marker_len(p@, i as int));
                assert(i + marker <= n);
            }
            let mut j: usize = i + marker;
            while j < n && p.get_char(j) != '/'
                invariant
                    i + marker <= j <= n,
                    n == p@.len(),
                    forall|k: int| i + marker <= k < j ==> p@[k] != '/',
                decreases n - j,
            {
                j += 1;
            }
            proof {
                lemma_run_end_at(p@, i + marker, j as int);
                lemma_first_home_found(p@, 0, i as int);
            }
            let pre = p.substring_char(0, i);
            let suf = p.substring_char(j, n);
            let r = pre.to_owned().concat("~").concat(suf);
            proof {
                reveal_strlit("~");
                assert("~"@ =~= seq!['~']);
                assert(r@ =~= abbrev_home(p@));
            }
            return r;
        }
        i += 1;
    }
    proof {
        lemma_first_home_absent(p@, 0);
    }
    p.to_owned()
}

/// The path with its trailing separators removed.
pub open spec fn trim_trailing_slashes(s: Seq<char>) -> Seq<char>
    decreases s.len(),
{
    if s.len() > 0 && s[s.len() - 1] == '/' {
        trim_trailing_slashes(s.drop_last())
    } else {
        s
    }
}

/// The suffix of `s` after its last separator; `s` itself when it holds
/// no separator.
pub open spec fn tail_after_slash(s: Seq<char>) -> Seq<char>
    decreases s.len(),
{
    if s.len() == 0 {
        s
    } else if s[s.len() - 1] == '/' {
        Seq::empty()
    } else {
        tail_after_slash(s.drop_last()).push(s[s.len() - 1])
    }
}

/// The last nonempty segment of a path: trailing separators are ignored.
/// Empty when the path has no segment (empty, or separators only).
pub open spec fn last_segment(s: Seq<char>) -> Seq<char> {
    tail_after_slash(trim_trailing_slashes(s))
}

/// The sentinel label for a path with no segments.
pub open spec fn fallback_name() -> Seq<char> {
    "no name"@
}

/// The display label derived from a path: its last nonempty segment, or the
/// sentinel when it has none.
pub open spec fn name_of(s: Seq<char>) -> Seq<char> {
    if last_segment(s).len() == 0 {
        fallback_name()
    } else {
        last_segment(s)
    }
}

proof fn lemma_trim_is_subrange(s: Seq<char>, e: int)
    requires
        0 <= e <= s.len(),
        forall|k: int| e <= k < s.len() ==> s[k] == '/',
        e == 0 || s[e - 1] != '/',
    ensures
        trim_trailing_slashes(s) == s.subrange(0, e),
    decreases s.len(),
{
    if s.len() > e {
        assert(s[s.len() - 1] == '/');
        lemma_trim_is_subrange(s.drop_last(), e);
        assert(s.drop_last().subrange(0, e) =~= s.subrange(0, e));
    } else {
        assert(s.subrange(0, e) =~= s);
    }
}

proof fn lemma_tail_is_subrange(t: Seq<char>, st: int)
    requires
        0 <= st <= t.len(),
        forall|k: int| st <= k < t.len() ==> t[k] != '/',
        st == 0 || t[st - 1] == '/',
    ensures
        tail_after_slash(t) == t.subrange(st, t.len() as int),
    decreases t.len(),
{
    if t.len() == 0 {
        assert(t.subrange(0, 0) =~= t);
    } else if st == t.len() {
        assert(t[t.len() - 1] == '/');
        assert(t.subrange(st, t.len() as int) =~= Seq::<char>::empty());
    } else {
        assert(t[t.len() - 1] != '/');
        lemma_tail_is_subrange(t.drop_last(), st);
        let whole = t.subrange(st, t.len() as int);
        assert(t.drop_last().subrange(st, t.len() - 1).push(t[t.len() - 1]) =~= whole);
    }
}

/// The label a path is shown and targeted under: its last nonempty segment
/// (trailing separators ignored), or a sentinel when the path has none.
pub fn segment_name(s: &str) -> (r: String)
    ensures
        r@ == name_of(s@),
{
    let n = s.unicode_len();
    let mut end = n;
    while end > 0 && s.get_char(end - 1) == '/'
        invariant
            0 <= end <= n,
            n == s@.len(),
            forall|k: int| end <= k < n ==> s@[k] == '/',
        decreases end,
    {
        end -= 1;
    }
    proof {
        lemma_trim_is_subrange(s@, end as int);
    }
    if end == 0 {
        proof {
            assert(s@.subrange(0, 0) =~= Seq::<char>::empty());
        }
        return String::from_str("no name");
    }
    let mut start = end;
    while start > 0 && s.get_char(start - 1) != '/'
        invariant
            0 <= start <= end,
            end <= n == s@.len(),
            forall|k: int| start <= k < end ==> s@[k] != '/',
        decreases start,
    {
        start -= 1;
    }
    proof {
        lemma_tail_is_subrange(s@.subrange(0, end as int), start as int);
        assert(s@.subrange(0, end as int).subrange(start as int, end as int) =~= s@.subrange(
            start as int,
            end as int,
        ));
    }
    s.substring_char(start, end).to_owned()
}

} // verus!
