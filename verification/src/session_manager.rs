//! The session registry: reconciles the host's session snapshots against the
//! known sessions by name, resolving new names against the workspace list.

use vstd::prelude::*;

use crate::session_detail::InfoView;
use crate::session_detail::RawSessionInfo;
use crate::session_detail::SessionDetail;
use crate::session_detail::SessionView;
use crate::workspace::Workspace;
use crate::workspace_dir::DirView;
use crate::workspace_dir::WorkspaceDir;

verus! {

/// The views of a sequence of session records.
pub open spec fn session_views(ss: Seq<SessionDetail>) -> Seq<SessionView> {
    ss.map_values(|s: SessionDetail| s@)
}

/// The views of a sequence of snapshot records.
pub open spec fn info_views(infos: Seq<RawSessionInfo>) -> Seq<InfoView> {
    infos.map_values(|i: RawSessionInfo| i@)
}

/// Whether some record in `ss` already carries this session name.
pub open spec fn knows_name(ss: Seq<SessionView>, name: Seq<char>) -> bool {
    exists|i: int| 0 <= i < ss.len() && ss[i].name == name
}

/// The directory of the first workspace whose display label equals `name`,
/// if any. A best-effort join: labels are not guaranteed unique.
pub open spec fn first_label_match(ws: Seq<Workspace>, name: Seq<char>) -> Option<DirView>
    decreases ws.len(),
{
    if ws.len() == 0 {
        None
    } else if ws[0]@.name == name {
        Some(ws[0]@.dir)
    } else {
        first_label_match(ws.drop_first(), name)
    }
}

/// The record built for a session name seen for the first time.
pub open spec fn new_session_view(info: InfoView, ws: Seq<Workspace>) -> SessionView {
    match first_label_match(ws, info.name) {
        Some(d) => SessionView {
            active: info.is_current_session,
            is_workspace_dir: true,
            name: info.name,
            path: d.path,
        },
        None => SessionView {
            active: info.is_current_session,
            is_workspace_dir: false,
            name: info.name,
            path: Seq::empty(),
        },
    }
}

/// The registry contents after one snapshot: every already-known name leaves
/// its record untouched; every new name appends a freshly resolved record,
/// in snapshot order.
pub open spec fn updated_sessions(
    cur: Seq<SessionView>,
    infos: Seq<InfoView>,
    ws: Seq<Workspace>,
) -> Seq<SessionView>
    decreases infos.len(),
{
    if infos.len() == 0 {
        cur
    } else if knows_name(cur, infos[0].name) {
        updated_sessions(cur, infos.drop_first(), ws)
    } else {
        updated_sessions(cur.push(new_session_view(infos[0], ws)), infos.drop_first(), ws)
    }
}

proof fn lemma_updated_snoc(
    cur: Seq<SessionView>,
    s: Seq<InfoView>,
    x: InfoView,
    ws: Seq<Workspace>,
)
    ensures
        updated_sessions(cur, s.push(x), ws) == if knows_name(updated_sessions(cur, s, ws), x.name) {
            updated_sessions(cur, s, ws)
        } else {
            updated_sessions(cur, s, ws).push(new_session_view(x, ws))
        },
    decreases s.len(),
{
    if s.len() == 0 {
        assert(s.push(x)[0] == x);
        assert(s.push(x).drop_first() =~= s);
        if knows_name(cur, x.name) {
            assert(updated_sessions(cur, s.push(x), ws) == updated_sessions(cur, s, ws));
            assert(updated_sessions(cur, s, ws) == cur);
        } else {
            assert(updated_sessions(cur, s.push(x), ws) == updated_sessions(
                cur.push(new_session_view(x, ws)),
                s,
                ws,
            ));
            assert(updated_sessions(cur.push(new_session_view(x, ws)), s, ws) == cur.push(
                new_session_view(x, ws),
            ));
        }
    } else {
        assert(s.push(x)[0] == s[0]);
        assert(s.push(x).drop_first() =~= s.drop_first().push(x));
        if knows_name(cur, s[0].name) {
            lemma_updated_snoc(cur, s.drop_first(), x, ws);
            assert(updated_sessions(cur, s.push(x), ws) == updated_sessions(
                cur,
                s.drop_first().push(x),
                ws,
            ));
            assert(updated_sessions(cur, s, ws) == updated_sessions(cur, s.drop_first(), ws));
        } else {
            lemma_updated_snoc(cur.push(new_session_view(s[0], ws)), s.drop_first(), x, ws);
            assert(updated_sessions(cur, s.push(x), ws) == updated_sessions(
                cur.push(new_session_view(s[0], ws)),
                s.drop_first().push(x),
                ws,
            ));
            assert(updated_sessions(cur, s, ws) == updated_sessions(
                cur.push(new_session_view(s[0], ws)),
                s.drop_first(),
                ws,
            ));
        }
    }
}

/// Finds the first workspace whose display label equals `name`, if any.
fn resolve_workspace<'a>(workspaces: &'a Vec<Workspace>, name: &String) -> (r: Option<
    &'a WorkspaceDir,
>)
    ensures
        match r {
            Some(d) => first_label_match(workspaces@, name@) == Some(d@),
            None => first_label_match(workspaces@, name@) == None::<DirView>,
        },
{
    let n = workspaces.len();
    let mut i: usize = 0;
    proof {
        assert(workspaces@.subrange(0, n as int) =~= workspaces@);
    }
    while i < n
        invariant
            0 <= i <= n,
            n == workspaces@.len(),
            first_label_match(workspaces@, name@) == first_label_match(
                workspaces@.subrange(i as int, n as int),
                name@,
            ),
        decreases n - i,
    {
        proof {
            let suffix = workspaces@.subrange(i as int, n as int);
            assert(suffix[0] == workspaces@[i as int]);
            assert(suffix.drop_first() =~= workspaces@.subrange(i + 1, n as int));
        }
        if workspaces[i].name == *name {
            return Some(&workspaces[i].dir);
        }
        i += 1;
    }
    proof {
        assert(workspaces@.subrange(n as int, n as int) =~= Seq::<Workspace>::empty());
    }
    None
}

/// Receives live session snapshots from the host and reconciles them by name
/// against the known sessions. It never prunes on its own: a record leaves
/// only when the host's own deletion is reflected in a later snapshot.
pub struct SessionManager {
    /// The known sessions, in first-observation order.
    pub sessions: Vec<SessionDetail>,
}

impl SessionManager {
    /// An empty registry.
    pub fn new() -> (r: SessionManager)
        ensures
            r.sessions@.len() == 0,
    {
        SessionManager { sessions: Vec::new() }
    }

    /// The full current snapshot, as copies: the registry cannot be mutated
    /// through the returned list.
    pub fn list_all_sessions(&self) -> (r: Vec<SessionDetail>)
        ensures
            r@ == self.sessions@,
    {
        let mut r: Vec<SessionDetail> = Vec::new();
        let n = self.sessions.len();
        let mut i: usize = 0;
        while i < n
            invariant
                0 <= i <= n,
                n == self.sessions@.len(),
                r@ =~= self.sessions@.subrange(0, i as int),
            decreases n - i,
        {
            r.push(self.sessions[i].duplicate());
            i += 1;
        }
        proof {
            assert(r@ =~= self.sessions@);
        }
        r
    }

    /// Whether a session of this name is already known.
    fn knows_session(&self, name: &String) -> (b: bool)
        ensures
            b == knows_name(session_views(self.sessions@), name@),
    {
        let n = self.sessions.len();
        let mut i: usize = 0;
        while i < n
            invariant
                0 <= i <= n,
                n == self.sessions@.len(),
                forall|k: int| 0 <= k < i ==> self.sessions@[k]@.name != name@,
            decreases n - i,
        {
            if self.sessions[i].name == *name {
                proof {
                    assert(session_views(self.sessions@)[i as int].name == name@);
                }
                return true;
            }
            i += 1;
        }
        proof {
            assert(forall|k: int|
                0 <= k < session_views(self.sessions@).len() ==> session_views(self.sessions@)[k]
                    == self.sessions@[k]@);
        }
        false
    }

    /// Reconciles one snapshot: an already-known name updates its record in
    /// place (a no-op beyond presence today); a new name appends a record
    /// whose workspace directory is resolved by display label, first match.
    pub fn update_sessions(&mut self, session_infos: Vec<RawSessionInfo>, workspaces: &Vec<
        Workspace,
    >)
        ensures
            session_views(final(self).sessions@) == updated_sessions(
                session_views(old(self).sessions@),
                info_views(session_infos@),
                workspaces@,
            ),
            final(self).sessions@.len() >= old(self).sessions@.len(),
            forall|i: int|
                0 <= i < old(self).sessions@.len() ==> final(self).sessions@[i] == old(
                    self,
                ).sessions@[i],
    {
        let n = session_infos.len();
        let mut i: usize = 0;
        while i < n
            invariant
                0 <= i <= n,
                n == session_infos@.len(),
                session_views(self.sessions@) == updated_sessions(
                    session_views(old(self).sessions@),
                    info_views(session_infos@).subrange(0, i as int),
                    workspaces@,
                ),
                self.sessions@.len() >= old(self).sessions@.len(),
                forall|k: int|
                    0 <= k < old(self).sessions@.len() ==> self.sessions@[k] == old(
                        self,
                    ).sessions@[k],
            decreases n - i,
        {
            proof {
                assert(info_views(session_infos@).subrange(0, i + 1) =~= info_views(
                    session_infos@,
                ).subrange(0, i as int).push(session_infos@[i as int]@));
                lemma_updated_snoc(
                    session_views(old(self).sessions@),
                    info_views(session_infos@).subrange(0, i as int),
                    session_infos@[i as int]@,
                    workspaces@,
                );
            }
            let info = session_infos[i].duplicate();
            if self.knows_session(&info.name) {
                // Presence is all the snapshot carries; keep the record.
            } else {
                let resolved = resolve_workspace(workspaces, &info.name);
                let detail = SessionDetail::new(info, resolved);
                proof {
                    assert(session_views(self.sessions@.push(detail)) =~= session_views(
                        self.sessions@,
                    ).push(detail@));
                    assert(detail@ == new_session_view(session_infos@[i as int]@, workspaces@));
                }
                self.sessions.push(detail);
            }
            i += 1;
        }
        proof {
            assert(info_views(session_infos@).subrange(0, n as int) =~= info_views(
                session_infos@,
            ));
        }
    }
}

} // verus!
