use crate::workspace::{
    view_of_info, view_opt, views_of, Workspace, WorkspaceInfo, WorkspaceUpdate, WorkspaceView,
    UpdateView,
};
use vstd::prelude::*;

verus! {

/// Entry `i` of `infos` carries the active identifier, and no earlier entry does.
pub open spec fn is_first_active(infos: Seq<WorkspaceInfo>, active: i32, i: int) -> bool {
    &&& 0 <= i < infos.len()
    &&& infos[i].id == active
    &&& forall|j: int| 0 <= j < i ==> infos[j].id != active
}

/// The store's contents after a refresh: one entry per reported workspace, in
/// the compositor's order, focused where its identifier is the active one.
/// Identifiers of live workspaces are unique; should the compositor report one
/// twice, only its first entry is marked.
pub open spec fn snapshot(active: i32, infos: Seq<WorkspaceInfo>) -> Seq<WorkspaceView> {
    Seq::new(infos.len(), |i: int| view_of_info(infos[i], is_first_active(infos, active, i)))
}

/// No two entries hold the focus.
pub open spec fn at_most_one_focused(s: Seq<WorkspaceView>) -> bool {
    forall|i: int, j: int|
        0 <= i < s.len() && 0 <= j < s.len() && #[trigger] s[i].focused && #[trigger] s[j].focused
            ==> i == j
}

/// Entry `i` is the first with identifier `id`.
pub open spec fn is_first_with_id(s: Seq<WorkspaceView>, id: Seq<char>, i: int) -> bool {
    &&& 0 <= i < s.len()
    &&& s[i].id == id
    &&& forall|j: int| 0 <= j < i ==> s[j].id != id
}

/// The first entry with identifier `id`, if any.
pub open spec fn find_by_id(s: Seq<WorkspaceView>, id: Seq<char>) -> Option<WorkspaceView> {
    if exists|i: int| is_first_with_id(s, id, i) {
        Some(s[choose|i: int| is_first_with_id(s, id, i)])
    } else {
        None
    }
}

/// Entry `i` is the first that holds the focus.
pub open spec fn is_first_focused(s: Seq<WorkspaceView>, i: int) -> bool {
    &&& 0 <= i < s.len()
    &&& s[i].focused
    &&& forall|j: int| 0 <= j < i ==> !s[j].focused
}

/// The first entry that holds the focus, if any.
pub open spec fn find_focused(s: Seq<WorkspaceView>) -> Option<WorkspaceView> {
    if exists|i: int| is_first_focused(s, i) {
        Some(s[choose|i: int| is_first_focused(s, i)])
    } else {
        None
    }
}

/// A refresh never marks two workspaces as focused, and marks one exactly
/// when the active identifier is among the reported workspaces.
pub proof fn lemma_snapshot_focus(active: i32, infos: Seq<WorkspaceInfo>)
    ensures
        at_most_one_focused(snapshot(active, infos)),
        (exists|i: int| 0 <= i < infos.len() && (#[trigger] snapshot(active, infos)[i]).focused)
            <==> (exists|i: int| 0 <= i < infos.len() && #[trigger] infos[i].id == active),
{
    let s = snapshot(active, infos);
    if exists|i: int| 0 <= i < infos.len() && #[trigger] infos[i].id == active {
        let k = choose|i: int| 0 <= i < infos.len() && #[trigger] infos[i].id == active;
        lemma_first_exists(infos, active, k);
        let f = choose|i: int| is_first_active(infos, active, i);
        assert(s[f].focused);
    }
}

proof fn lemma_first_exists(infos: Seq<WorkspaceInfo>, active: i32, k: int)
    requires
        0 <= k < infos.len(),
        infos[k].id == active,
    ensures
        exists|i: int| is_first_active(infos, active, i),
    decreases k,
{
    if forall|j: int| 0 <= j < k ==> infos[j].id != active {
        assert(is_first_active(infos, active, k));
    } else {
        let j = choose|j: int| 0 <= j < k && infos[j].id == active;
        lemma_first_exists(infos, active, j);
    }
}

/// The workspace list as last read from the compositor.
pub struct WorkspaceStore {
    workspaces: Vec<Workspace>,
}

impl View for WorkspaceStore {
    type V = Seq<WorkspaceView>;

    closed spec fn view(&self) -> Seq<WorkspaceView> {
        views_of(self.workspaces@)
    }
}

impl WorkspaceStore {
    /// The store's invariant: at most one workspace holds the focus.
    pub open spec fn wf(&self) -> bool {
        at_most_one_focused(self@)
    }

    /// An empty store.
    pub fn new() -> (r: WorkspaceStore)
        ensures
            r@ == Seq::<WorkspaceView>::empty(),
            r.wf(),
    {
        WorkspaceStore { workspaces: Vec::new() }
    }

    /// Replaces the whole list with what the compositor reported: `infos`,
    /// with the workspace whose identifier is `active` marked focused.
    pub fn refresh(&mut self, active: i32, infos: &Vec<WorkspaceInfo>)
        ensures
            final(self)@ == snapshot(active, infos@),
            final(self).wf(),
    {
        let mut list: Vec<Workspace> = Vec::new();
        let mut found = false;
        let mut i: usize = 0;
        while i < infos.len()
            invariant
                i <= infos@.len(),
                found == exists|j: int| 0 <= j < i && #[trigger] infos@[j].id == active,
                views_of(list@) == snapshot(active, infos@).subrange(0, i as int),
            decreases infos@.len() - i,
        {
            let info = &infos[i];
            let focused = !found && info.id == active;
            if focused {
                found = true;
            }
            let w = Workspace::from_info(focused, info);
            proof {
                assert(focused == is_first_active(infos@, active, i as int));
            }
            let ghost prev = list@;
            let ghost wv = w@;
            list.push(w);
            i = i + 1;
            proof {
                assert(views_of(list@) =~= views_of(prev).push(wv));
                assert(views_of(list@) =~= snapshot(active, infos@).subrange(0, i as int));
            }
        }
        proof {
            assert(views_of(list@) =~= snapshot(active, infos@));
            lemma_snapshot_focus(active, infos@);
        }
        self.workspaces = list;
    }

    /// The first workspace whose identifier is `id`, if any.
    pub fn get_workspace(&self, id: &String) -> (r: Option<Workspace>)
        ensures
            view_opt(r) == find_by_id(self@, id@),
    {
        let mut i: usize = 0;
        while i < self.workspaces.len()
            invariant
                i <= self@.len(),
                self@.len() == self.workspaces@.len(),
                forall|j: int| 0 <= j < i ==> (#[trigger] self@[j]).id != id@,
            decreases self@.len() - i,
        {
            if self.workspaces[i].id == *id {
                let r = self.workspaces[i].duplicate();
                proof {
                    assert(is_first_with_id(self@, id@, i as int));
                    let c = choose|k: int| is_first_with_id(self@, id@, k);
                    assert(c == i as int);
                }
                return Some(r);
            }
            i = i + 1;
        }
        None
    }

    /// The first workspace that holds the focus, if any.
    pub fn get_focused_workspace(&self) -> (r: Option<Workspace>)
        ensures
            view_opt(r) == find_focused(self@),
    {
        let mut i: usize = 0;
        while i < self.workspaces.len()
            invariant
                i <= self@.len(),
                self@.len() == self.workspaces@.len(),
                forall|j: int| 0 <= j < i ==> !(#[trigger] self@[j]).focused,
            decreases self@.len() - i,
        {
            if self.workspaces[i].focused {
                let r = self.workspaces[i].duplicate();
                proof {
                    assert(is_first_focused(self@, i as int));
                    let c = choose|k: int| is_first_focused(self@, k);
                    assert(c == i as int);
                }
                return Some(r);
            }
            i = i + 1;
        }
        None
    }

    /// A copy of the whole list.
    pub fn workspaces(&self) -> (r: Vec<Workspace>)
        ensures
            views_of(r@) == self@,
    {
        let mut list: Vec<Workspace> = Vec::new();
        let mut i: usize = 0;
        while i < self.workspaces.len()
            invariant
                i <= self@.len(),
                self@.len() == self.workspaces@.len(),
                views_of(list@) == self@.subrange(0, i as int),
            decreases self@.len() - i,
        {
            let w = self.workspaces[i].duplicate();
            let ghost prev = list@;
            let ghost wv = w@;
            list.push(w);
            i = i + 1;
            proof {
                assert(views_of(list@) =~= views_of(prev).push(wv));
                assert(views_of(list@) =~= self@.subrange(0, i as int));
            }
        }
        proof {
            assert(views_of(list@) =~= self@);
        }
        list
    }

    /// The snapshot message for a new subscriber: the whole current list.
    pub fn init_update(&self) -> (r: WorkspaceUpdate)
        ensures
            r@ == UpdateView::Init(self@),
    {
        WorkspaceUpdate::Init(self.workspaces())
    }
}

} // verus!
