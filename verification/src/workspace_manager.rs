//! The workspace registry: turns scan results read through the restricted
//! view into workspace directories, and maintains a deduplicated,
//! insertion-ordered workspace list across repeated scans.

use vstd::prelude::*;

use crate::config::Config;
use crate::config::string_views;
use crate::paths::real_form;
use crate::paths::sandbox_form;
use crate::paths::to_real;
use crate::paths::to_sandbox;
use crate::workspace::Workspace;
use crate::workspace_dir::WorkspaceDir;

verus! {

/// The mount point under which the restricted view exposes the real host
/// filesystem.
pub open spec fn sandbox_root_view() -> Seq<char> {
    "/host"@
}

/// The sandbox mount point as a value.
pub fn sandbox_root() -> (r: &'static str)
    ensures
        r@ == sandbox_root_view(),
{
    "/host"
}

/// One immediate child of a scanned root, as read through the restricted
/// view.
pub struct ScanEntry {
    /// The child's path in the restricted view.
    pub sandbox_path: String,
    /// Whether the child is a directory.
    pub is_dir: bool,
}

/// The result of probing one configured extra directory for existence.
pub struct ExtraDir {
    /// The extra directory's real path, as configured.
    pub real_path: String,
    /// Whether the directory exists.
    pub exists: bool,
}

/// The real paths a sequence of scanned children yields, in scan order:
/// directories only, translated back to real form; a child not under the
/// sandbox root is skipped rather than failing the scan.
pub open spec fn scanned_reals(entries: Seq<ScanEntry>) -> Seq<Seq<char>>
    decreases entries.len(),
{
    if entries.len() == 0 {
        Seq::empty()
    } else {
        let head = if entries[0].is_dir && sandbox_root_view().is_prefix_of(
            entries[0].sandbox_path@,
        ) {
            seq![real_form(entries[0].sandbox_path@, sandbox_root_view())]
        } else {
            Seq::empty()
        };
        head + scanned_reals(entries.drop_first())
    }
}

/// The real paths the extra-directory probes contribute: the existing ones,
/// in configuration order.
pub open spec fn extra_reals(extras: Seq<ExtraDir>) -> Seq<Seq<char>>
    decreases extras.len(),
{
    if extras.len() == 0 {
        Seq::empty()
    } else {
        let head = if extras[0].exists {
            seq![extras[0].real_path@]
        } else {
            Seq::empty()
        };
        head + extra_reals(extras.drop_first())
    }
}

/// The extra directories a scan skips: the ones that do not exist, in
/// configuration order.
pub open spec fn skipped_extras(extras: Seq<ExtraDir>) -> Seq<Seq<char>>
    decreases extras.len(),
{
    if extras.len() == 0 {
        Seq::empty()
    } else {
        let head = if extras[0].exists {
            Seq::empty()
        } else {
            seq![extras[0].real_path@]
        };
        head + skipped_extras(extras.drop_first())
    }
}

/// The real paths of a sequence of workspace directories.
pub open spec fn dir_paths(ds: Seq<WorkspaceDir>) -> Seq<Seq<char>> {
    ds.map_values(|d: WorkspaceDir| d@.path)
}

/// The real paths of a sequence of workspaces.
pub open spec fn ws_paths(ws: Seq<Workspace>) -> Seq<Seq<char>> {
    ws.map_values(|w: Workspace| w@.dir.path)
}

/// The path list after an additive refresh: each incoming path is appended
/// exactly when it is not already present; present ones leave the list
/// untouched.
pub open spec fn merged_paths(cur: Seq<Seq<char>>, incoming: Seq<Seq<char>>) -> Seq<Seq<char>>
    decreases incoming.len(),
{
    if incoming.len() == 0 {
        cur
    } else if cur.contains(incoming[0]) {
        merged_paths(cur, incoming.drop_first())
    } else {
        merged_paths(cur.push(incoming[0]), incoming.drop_first())
    }
}

proof fn lemma_merged_snoc(cur: Seq<Seq<char>>, s: Seq<Seq<char>>, x: Seq<char>)
    ensures
        merged_paths(cur, s.push(x)) == if merged_paths(cur, s).contains(x) {
            merged_paths(cur, s)
        } else {
            merged_paths(cur, s).push(x)
        },
    decreases s.len(),
{
    if s.len() == 0 {
        assert(s.push(x)[0] == x);
        assert(s.push(x).drop_first() =~~= s);
        if cur.contains(x) {
            assert(merged_paths(cur, s.push(x)) == merged_paths(cur, s));
            assert(merged_paths(cur, s) == cur);
        } else {
            assert(merged_paths(cur, s.push(x)) == merged_paths(cur.push(x), s));
            assert(merged_paths(cur.push(x), s) == cur.push(x));
        }
    } else {
        assert(s.push(x)[0] == s[0]);
        assert(s.push(x).drop_first() =~~= s.drop_first().push(x));
        if cur.contains(s[0]) {
            lemma_merged_snoc(cur, s.drop_first(), x);
            assert(merged_paths(cur, s.push(x)) == merged_paths(cur, s.drop_first().push(x)));
            assert(merged_paths(cur, s) == merged_paths(cur, s.drop_first()));
        } else {
            lemma_merged_snoc(cur.push(s[0]), s.drop_first(), x);
            assert(merged_paths(cur, s.push(x)) == merged_paths(
                cur.push(s[0]),
                s.drop_first().push(x),
            ));
            assert(merged_paths(cur, s) == merged_paths(cur.push(s[0]), s.drop_first()));
        }
    }
}

/// What a scan produced: the discovered directories, and the extra
/// directories that were skipped for not existing (a diagnostic, not an
/// error).
pub struct ScanOutcome {
    /// The discovered workspace directories, in scan order.
    pub dirs: Vec<WorkspaceDir>,
    /// The configured extra directories that did not exist.
    pub skipped: Vec<String>,
}

/// Scans configured roots through the restricted view and keeps an additive,
/// deduplicated registry of the workspaces found.
pub struct WorkspaceManager {
    /// The discovered workspaces, in first-observation order.
    pub workspaces: Vec<Workspace>,
}

impl WorkspaceManager {
    /// No two registered workspaces share a real path, and every entry's
    /// derived fields follow from its real path.
    pub open spec fn wf(self) -> bool {
        &&& forall|i: int, j: int|
            0 <= i < j < self.workspaces@.len() ==> self.workspaces@[i]@.dir.path
                != self.workspaces@[j]@.dir.path
        &&& forall|i: int| 0 <= i < self.workspaces@.len() ==> self.workspaces@[i].wf()
    }

    /// An empty registry.
    pub fn new() -> (r: WorkspaceManager)
        ensures
            r.wf(),
            r.workspaces@.len() == 0,
    {
        WorkspaceManager { workspaces: Vec::new() }
    }

    /// The current registry snapshot, in registry order.
    pub fn list_workspaces(&self) -> (r: Vec<Workspace>)
        ensures
            r@ == self.workspaces@,
    {
        let mut r: Vec<Workspace> = Vec::new();
        let n = self.workspaces.len();
        let mut i: usize = 0;
        while i < n
            invariant
                0 <= i <= n,
                n == self.workspaces@.len(),
                r@ =~= self.workspaces@.subrange(0, i as int),
            decreases n - i,
        {
            r.push(self.workspaces[i].duplicate());
            i += 1;
        }
        proof {
            assert(r@ =~= self.workspaces@);
        }
        r
    }

    /// Whether a scanned directory counts as a workspace. The extension
    /// point for a real eligibility test (say, for a version-control root);
    /// today every directory is eligible.
    fn is_eligible_dir(&self, _entry: &ScanEntry) -> (r: bool)
        ensures
            r,
    {
        true
    }

    /// Turns scan results into workspace directories: scanned children that
    /// are directories are translated back to real form (children not under
    /// the sandbox root are skipped), then existing extra directories are
    /// appended; extra directories that do not exist are reported as
    /// skipped, never as a failure.
    pub fn get_workspace_dirs(&self, entries: &Vec<ScanEntry>, extras: &Vec<ExtraDir>) -> (r:
        ScanOutcome)
        ensures
            dir_paths(r.dirs@) == scanned_reals(entries@) + extra_reals(extras@),
            forall|i: int| 0 <= i < r.dirs@.len() ==> r.dirs@[i].wf(),
            string_views(r.skipped@) == skipped_extras(extras@),
    {
        let mut dirs: Vec<WorkspaceDir> = Vec::new();
        let mut skipped: Vec<String> = Vec::new();
        let root = sandbox_root();
        let n = entries.len();
        let mut i: usize = 0;
        proof {
            assert(entries@.subrange(0, n as int) =~= entries@);
            assert(dir_paths(dirs@) =~~= Seq::<Seq<char>>::empty());
        }
        while i < n
            invariant
                0 <= i <= n,
                n == entries@.len(),
                dir_paths(dirs@) + scanned_reals(entries@.subrange(i as int, n as int))
                    =~~= scanned_reals(entries@),
                forall|k: int| 0 <= k < dirs@.len() ==> dirs@[k].wf(),
                skipped@.len() == 0,
                root@ == sandbox_root_view(),
            decreases n - i,
        {
            proof {
                let suffix = entries@.subrange(i as int, n as int);
                assert(suffix[0] == entries@[i as int]);
                assert(suffix.drop_first() =~= entries@.subrange(i + 1, n as int));
            }
            let entry = &entries[i];
            if entry.is_dir && self.is_eligible_dir(entry) {
                match to_real(entry.sandbox_path.as_str(), root) {
                    Ok(rp) => {
                        let d = WorkspaceDir::new(rp);
                        proof {
                            assert(dir_paths(dirs@.push(d)) =~~= dir_paths(dirs@) + seq![
                                d@.path,
                            ]);
                        }
                        dirs.push(d);
                    },
                    Err(_) => {},
                }
            }
            i += 1;
        }
        proof {
            assert(entries@.subrange(n as int, n as int) =~= Seq::<ScanEntry>::empty());
            assert(dir_paths(dirs@) =~~= scanned_reals(entries@));
        }
        let m = extras.len();
        let mut j: usize = 0;
        proof {
            assert(extras@.subrange(0, m as int) =~= extras@);
            assert(string_views(skipped@) =~~= Seq::<Seq<char>>::empty());
        }
        while j < m
            invariant
                0 <= j <= m,
                m == extras@.len(),
                dir_paths(dirs@) + extra_reals(extras@.subrange(j as int, m as int))
                    =~~= scanned_reals(entries@) + extra_reals(extras@),
                string_views(skipped@) + skipped_extras(extras@.subrange(j as int, m as int))
                    =~~= skipped_extras(extras@),
                forall|k: int| 0 <= k < dirs@.len() ==> dirs@[k].wf(),
            decreases m - j,
        {
            proof {
                let suffix = extras@.subrange(j as int, m as int);
                assert(suffix[0] == extras@[j as int]);
                assert(suffix.drop_first() =~= extras@.subrange(j + 1, m as int));
            }
            let extra = &extras[j];
            if extra.exists {
                let d = WorkspaceDir::new(extra.real_path.clone());
                proof {
                    assert(dir_paths(dirs@.push(d)) =~~= dir_paths(dirs@) + seq![d@.path]);
                }
                dirs.push(d);
            } else {
                let s = extra.real_path.clone();
                proof {
                    assert(string_views(skipped@.push(s)) =~~= string_views(skipped@) + seq![
                        s@,
                    ]);
                }
                skipped.push(s);
            }
            j += 1;
        }
        proof {
            assert(extras@.subrange(m as int, m as int) =~= Seq::<ExtraDir>::empty());
            assert(dir_paths(dirs@) =~~= scanned_reals(entries@) + extra_reals(extras@));
            assert(string_views(skipped@) =~~= skipped_extras(extras@));
        }
        ScanOutcome { dirs, skipped }
    }

    /// Whether some registered workspace already has this real path.
    fn knows_path(&self, path: &String) -> (b: bool)
        ensures
            b == ws_paths(self.workspaces@).contains(path@),
    {
        let n = self.workspaces.len();
        let mut i: usize = 0;
        while i < n
            invariant
                0 <= i <= n,
                n == self.workspaces@.len(),
                forall|k: int| 0 <= k < i ==> self.workspaces@[k]@.dir.path != path@,
            decreases n - i,
        {
            if self.workspaces[i].dir.path == *path {
                proof {
                    assert(ws_paths(self.workspaces@)[i as int] == path@);
                }
                return true;
            }
            i += 1;
        }
        proof {
            assert(forall|k: int|
                0 <= k < ws_paths(self.workspaces@).len() ==> ws_paths(self.workspaces@)[k]
                    != path@);
        }
        false
    }

    /// Appends a workspace for each scanned directory whose real path is not
    /// yet registered. Additive only: nothing is removed or reordered, a
    /// workspace absent from this scan stays, and no real path is ever
    /// registered twice.
    pub fn refresh_workspaces(&mut self, dirs: &Vec<WorkspaceDir>)
        requires
            old(self).wf(),
            forall|i: int| 0 <= i < dirs@.len() ==> dirs@[i].wf(),
        ensures
            final(self).wf(),
            final(self).workspaces@.len() >= old(self).workspaces@.len(),
            forall|i: int|
                0 <= i < old(self).workspaces@.len() ==> final(self).workspaces@[i] == old(
                    self,
                ).workspaces@[i],
            ws_paths(final(self).workspaces@) == merged_paths(
                ws_paths(old(self).workspaces@),
                dir_paths(dirs@),
            ),
    {
        let n = dirs.len();
        let mut i: usize = 0;
        while i < n
            invariant
                0 <= i <= n,
                n == dirs@.len(),
                forall|k: int| 0 <= k < dirs@.len() ==> dirs@[k].wf(),
                self.wf(),
                self.workspaces@.len() >= old(self).workspaces@.len(),
                forall|k: int|
                    0 <= k < old(self).workspaces@.len() ==> self.workspaces@[k] == old(
                        self,
                    ).workspaces@[k],
                ws_paths(self.workspaces@) == merged_paths(
                    ws_paths(old(self).workspaces@),
                    dir_paths(dirs@).subrange(0, i as int),
                ),
            decreases n - i,
        {
            proof {
                assert(dir_paths(dirs@).subrange(0, i + 1) =~~= dir_paths(dirs@).subrange(
                    0,
                    i as int,
                ).push(dirs@[i as int]@.path));
                lemma_merged_snoc(
                    ws_paths(old(self).workspaces@),
                    dir_paths(dirs@).subrange(0, i as int),
                    dirs@[i as int]@.path,
                );
            }
            let dir = &dirs[i];
            if !self.knows_path(&dir.path) {
                let w = Workspace::from_dir(dir);
                proof {
                    let ghost ws0 = self.workspaces@;
                    assert(forall|k: int|
                        0 <= k < ws0.len() ==> ws_paths(ws0)[k] == ws0[k]@.dir.path);
                    assert forall|k: int| 0 <= k < ws0.len() implies ws0[k]@.dir.path
                        != w@.dir.path by {
                        if ws0[k]@.dir.path == w@.dir.path {
                            assert(ws_paths(ws0)[k] == dir@.path);
                            assert(ws_paths(ws0).contains(dir@.path));
                        }
                    }
                    assert(ws_paths(ws0.push(w)) =~~= ws_paths(ws0).push(w@.dir.path));
                }
                self.workspaces.push(w);
                proof {
                    assert(self.wf());
                }
            }
            i += 1;
        }
        proof {
            assert(dir_paths(dirs@).subrange(0, n as int) =~~= dir_paths(dirs@));
        }
    }

    /// The restricted-view paths the host should list to scan the configured
    /// roots: each root translated into the sandbox, in configuration order.
    pub fn scan_host_dirs(&self, config: &Config) -> (r: Vec<String>)
        ensures
            r@.len() == config.root_dirs@.len(),
            forall|i: int|
                0 <= i < r@.len() ==> r@[i]@ == sandbox_form(
                    config.root_dirs@[i]@,
                    sandbox_root_view(),
                ),
    {
        let mut r: Vec<String> = Vec::new();
        let root = sandbox_root();
        let n = config.root_dirs.len();
        let mut i: usize = 0;
        while i < n
            invariant
                0 <= i <= n,
                n == config.root_dirs@.len(),
                r@.len() == i,
                root@ == sandbox_root_view(),
                forall|k: int|
                    0 <= k < i ==> r@[k]@ == sandbox_form(
                        config.root_dirs@[k]@,
                        sandbox_root_view(),
                    ),
            decreases n - i,
        {
            r.push(to_sandbox(config.root_dirs[i].as_str(), root));
            i += 1;
        }
        r
    }
}

} // verus!
