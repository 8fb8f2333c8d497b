//! Configuration delivered by the host: `;`-separated lists of root
//! directories and extra directories.

use vstd::prelude::*;

verus! {

/// The views of a sequence of strings.
pub open spec fn string_views(ss: Seq<String>) -> Seq<Seq<char>> {
    ss.map_values(|s: String| s@)
}

/// The first index at or after `j` holding a `;`, or the end of `s`.
pub open spec fn scan_sep(s: Seq<char>, j: int) -> int
    recommends
        0 <= j <= s.len(),
    decreases s.len() - j when 0 <= j <= s.len()
{
    if j >= s.len() || s[j] == ';' {
        j
    } else {
        scan_sep(s, j + 1)
    }
}

/// The pieces of `s` between its `;` separators, in order. An input without
/// a separator yields itself as the one piece; the empty input yields one
/// empty piece.
pub open spec fn split_semis(s: Seq<char>) -> Seq<Seq<char>>
    decreases s.len(),
    via split_semis_decreases
{
    let e = scan_sep(s, 0);
    if e == s.len() {
        seq![s]
    } else {
        seq![s.subrange(0, e)] + split_semis(s.subrange(e + 1, s.len() as int))
    }
}

proof fn lemma_scan_sep_bounds(s: Seq<char>, j: int)
    requires
        0 <= j <= s.len(),
    ensures
        j <= scan_sep(s, j) <= s.len(),
    decreases s.len() - j,
{
    if !(j >= s.len() || s[j] == ';') {
        lemma_scan_sep_bounds(s, j + 1);
    }
}

#[via_fn]
proof fn split_semis_decreases(s: Seq<char>) {
    lemma_scan_sep_bounds(s, 0);
}

proof fn lemma_scan_sep_at(s: Seq<char>, j0: int, j: int)
    requires
        0 <= j0 <= j <= s.len(),
        forall|k: int| j0 <= k < j ==> s[k] != ';',
        j == s.len() || s[j] == ';',
    ensures
        scan_sep(s, j0) == j,
    decreases j - j0,
{
    if j0 < j {
        lemma_scan_sep_at(s, j0 + 1, j);
    }
}

/// Splits a configuration string on `;` into the listed paths.
pub fn parse_dir_str(dirs: &str) -> (r: Vec<String>)
    ensures
        string_views(r@) == split_semis(dirs@),
{
    let n = dirs.unicode_len();
    let mut r: Vec<String> = Vec::new();
    let mut start: usize = 0;
    let mut i: usize = 0;
    proof {
        assert(dirs@.subrange(0, n as int) =~= dirs@);
        assert(string_views(Seq::<String>::empty()) =~~= Seq::<Seq<char>>::empty());
    }
    while i < n
        invariant
            0 <= start <= i <= n,
            n == dirs@.len(),
            forall|k: int| start <= k < i ==> dirs@[k] != ';',
            split_semis(dirs@) =~~= string_views(r@) + split_semis(
                dirs@.subrange(start as int, n as int),
            ),
        decreases n - i,
    {
        if dirs.get_char(i) == ';' {
            let piece = dirs.substring_char(start, i).to_owned();
            proof {
                let suffix = dirs@.subrange(start as int, n as int);
                lemma_scan_sep_at(suffix, 0, i - start);
                assert(suffix.subrange(0, i - start) =~= dirs@.subrange(start as int, i as int));
                assert(suffix.subrange(i - start + 1, suffix.len() as int) =~= dirs@.subrange(
                    i + 1,
                    n as int,
                ));
                assert(string_views(r@.push(piece)) =~~= string_views(r@) + seq![piece@]);
            }
            r.push(piece);
            start = i + 1;
        }
        i += 1;
    }
    let last = dirs.substring_char(start, n).to_owned();
    proof {
        let suffix = dirs@.subrange(start as int, n as int);
        lemma_scan_sep_at(suffix, 0, suffix.len() as int);
        assert(string_views(r@.push(last)) =~~= string_views(r@) + seq![last@]);
    }
    r.push(last);
    proof {
        assert(string_views(r@) =~~= split_semis(dirs@));
    }
    r
}

/// Splits an optional configuration value; an absent value yields no paths.
pub fn parse_dirs(maybe_config_str: Option<&String>) -> (r: Vec<String>)
    ensures
        match maybe_config_str {
            Some(s) => string_views(r@) == split_semis(s@),
            None => r@ == Seq::<String>::empty(),
        },
{
    match maybe_config_str {
        Some(config_str) => parse_dir_str(config_str.as_str()),
        None => Vec::new(),
    }
}

/// The directory lists the host configured: roots to scan for workspaces and
/// extra directories taken in directly.
pub struct Config {
    /// Directories taken in directly, without a scan.
    pub extra_dirs: Vec<String>,
    /// Roots whose immediate children are scanned for workspaces.
    pub root_dirs: Vec<String>,
}

impl Config {
    /// Builds the configuration from the host's two optional `;`-separated
    /// values; an absent value defaults to an empty list.
    pub fn from_settings(root_dirs: Option<&String>, extra_dirs: Option<&String>) -> (r: Config)
        ensures
            match root_dirs {
                Some(s) => string_views(r.root_dirs@) == split_semis(s@),
                None => r.root_dirs@ == Seq::<String>::empty(),
            },
            match extra_dirs {
                Some(s) => string_views(r.extra_dirs@) == split_semis(s@),
                None => r.extra_dirs@ == Seq::<String>::empty(),
            },
    {
        Config { extra_dirs: parse_dirs(extra_dirs), root_dirs: parse_dirs(root_dirs) }
    }
}

impl Default for Config {
    /// An empty configuration: nothing to scan, nothing extra.
    fn default() -> (r: Config)
        ensures
            r.root_dirs@ == Seq::<String>::empty(),
            r.extra_dirs@ == Seq::<String>::empty(),
    {
        Config { extra_dirs: Vec::new(), root_dirs: Vec::new() }
    }
}

} // verus!
