use crate::store::{find_by_id, find_focused, snapshot, WorkspaceStore};
use crate::workspace::{
    id_of, id_to_string, update_views, UpdateView, Workspace, WorkspaceInfo,
    WorkspaceType, WorkspaceUpdate, WorkspaceView,
};
use vstd::prelude::*;

verus! {

/// A lifecycle event reported by the compositor, with the workspace it is about.
#[derive(Debug)]
pub enum WorkspaceEvent {
    /// A workspace was created.
    Added(WorkspaceType),
    /// The active workspace changed, or a workspace's attributes did.
    Changed(WorkspaceType),
    /// A workspace was destroyed.
    Destroyed(WorkspaceType),
    /// A workspace moved to another monitor.
    Moved(WorkspaceType),
    /// Another monitor took the focus; the workspace is the one shown there.
    ActiveMonitorChanged(WorkspaceType),
}

/// The focus message between the previously focused workspace and the newly
/// active one: one message when their identifiers differ, none otherwise.
pub open spec fn focus_part(old: WorkspaceView, new: WorkspaceView) -> Seq<UpdateView> {
    if old.id != new.id {
        seq![UpdateView::Focus { old, new }]
    } else {
        Seq::empty()
    }
}

/// Both the previously focused workspace and the workspace with identifier
/// `id` after the refresh are known, and they differ.
pub open spec fn moves_focus(prior: Seq<WorkspaceView>, next: Seq<WorkspaceView>, id: Seq<char>) -> bool {
    match (find_focused(prior), find_by_id(next, id)) {
        (Some(old), Some(new)) => old.id != new.id,
        _ => false,
    }
}

/// The updates that `event` gives, from the store's contents before the event
/// (`prior`) and after its refresh (`next`). A workspace that cannot be found
/// gives nothing; a focus change needs both the old and the new workspace.
pub open spec fn emissions(
    event: WorkspaceEvent,
    prior: Seq<WorkspaceView>,
    next: Seq<WorkspaceView>,
) -> Seq<UpdateView> {
    match event {
        WorkspaceEvent::Added(t) => match find_by_id(next, id_of(t)) {
            Some(w) => seq![UpdateView::Add(w)],
            None => Seq::empty(),
        },
        WorkspaceEvent::Changed(t) => match (find_focused(prior), find_by_id(next, id_of(t))) {
            (Some(old), Some(new)) => focus_part(old, new).push(UpdateView::Update(new)),
            _ => Seq::empty(),
        },
        WorkspaceEvent::Destroyed(t) => match find_by_id(prior, id_of(t)) {
            Some(w) => seq![UpdateView::Remove(w)],
            None => Seq::empty(),
        },
        WorkspaceEvent::Moved(t) => match find_by_id(next, id_of(t)) {
            Some(w) => seq![UpdateView::Move(w)],
            None => Seq::empty(),
        },
        WorkspaceEvent::ActiveMonitorChanged(t) => match (
            find_focused(prior),
            find_by_id(next, id_of(t)),
        ) {
            (Some(old), Some(new)) => focus_part(old, new),
            _ => Seq::empty(),
        },
    }
}

/// The focus message from `old` to `new`, when their identifiers differ.
pub fn focus_transition(old: &Workspace, new: &Workspace) -> (r: Option<WorkspaceUpdate>)
    ensures
        old.id@ != new.id@ ==> (r matches Some(u) && u@ == (UpdateView::Focus {
            old: old@,
            new: new@,
        })),
        old.id@ == new.id@ ==> r is None,
{
    if old.id != new.id {
        Some(WorkspaceUpdate::Focus { old: old.duplicate(), new: new.duplicate() })
    } else {
        None
    }
}

/// Brings the store up to date for `event`, given what the compositor now
/// reports (`active`, the focused workspace's identifier, and `infos`, all
/// workspaces), and returns the updates for the subscribers, in order.
///
/// The focused workspace is read before the refresh, so that a focus change is
/// seen; a destroyed workspace is looked up before the refresh, while the store
/// still holds it.
pub fn apply_event(
    store: &mut WorkspaceStore,
    event: WorkspaceEvent,
    active: i32,
    infos: &Vec<WorkspaceInfo>,
) -> (r: Vec<WorkspaceUpdate>)
    ensures
        final(store)@ == snapshot(active, infos@),
        final(store).wf(),
        update_views(r@) == emissions(event, old(store)@, snapshot(active, infos@)),
{
    let ghost prior = store@;
    let ghost next = snapshot(active, infos@);
    let ghost ev = event;
    let mut out: Vec<WorkspaceUpdate> = Vec::new();
    match event {
        WorkspaceEvent::Added(t) => {
            store.refresh(active, infos);
            if let Some(w) = store.get_workspace(&id_to_string(t)) {
                out.push(WorkspaceUpdate::Add(w));
            }
        },
        WorkspaceEvent::Changed(t) => {
            let prev = store.get_focused_workspace();
            store.refresh(active, infos);
            let cur = store.get_workspace(&id_to_string(t));
            if let (Some(prev), Some(cur)) = (prev, cur) {
                if let Some(focus) = focus_transition(&prev, &cur) {
                    out.push(focus);
                }
                out.push(WorkspaceUpdate::Update(cur));
            }
        },
        WorkspaceEvent::Destroyed(t) => {
            if let Some(w) = store.get_workspace(&id_to_string(t)) {
                out.push(WorkspaceUpdate::Remove(w));
            }
            store.refresh(active, infos);
        },
        WorkspaceEvent::Moved(t) => {
            store.refresh(active, infos);
            if let Some(w) = store.get_workspace(&id_to_string(t)) {
                out.push(WorkspaceUpdate::Move(w));
            }
        },
        WorkspaceEvent::ActiveMonitorChanged(t) => {
            let prev = store.get_focused_workspace();
            store.refresh(active, infos);
            let cur = store.get_workspace(&id_to_string(t));
            if let (Some(prev), Some(cur)) = (prev, cur) {
                if let Some(focus) = focus_transition(&prev, &cur) {
                    out.push(focus);
                }
            }
        },
    }
    proof {
        assert(update_views(out@) =~= emissions(ev, prior, next));
    }
    out
}

/// A change event that keeps the focus on the same workspace gives a single
/// `Update` of that workspace and no `Focus`.
pub proof fn lemma_changed_same_focus(
    prior: Seq<WorkspaceView>,
    active: i32,
    infos: Seq<WorkspaceInfo>,
    t: WorkspaceType,
    old: WorkspaceView,
    new: WorkspaceView,
)
    requires
        find_focused(prior) == Some(old),
        find_by_id(snapshot(active, infos), id_of(t)) == Some(new),
        old.id == new.id,
    ensures
        emissions(WorkspaceEvent::Changed(t), prior, snapshot(active, infos)) == seq![
            UpdateView::Update(new),
        ],
{
    assert(emissions(WorkspaceEvent::Changed(t), prior, snapshot(active, infos)) =~= seq![
        UpdateView::Update(new),
    ]);
}

/// A change event that moves the focus gives exactly one `Focus` from the old
/// workspace to the new one, then one `Update` of the new one.
pub proof fn lemma_changed_new_focus(
    prior: Seq<WorkspaceView>,
    active: i32,
    infos: Seq<WorkspaceInfo>,
    t: WorkspaceType,
    old: WorkspaceView,
    new: WorkspaceView,
)
    requires
        find_focused(prior) == Some(old),
        find_by_id(snapshot(active, infos), id_of(t)) == Some(new),
        old.id != new.id,
    ensures
        emissions(WorkspaceEvent::Changed(t), prior, snapshot(active, infos)) == seq![
            UpdateView::Focus { old, new },
            UpdateView::Update(new),
        ],
{
    assert(emissions(WorkspaceEvent::Changed(t), prior, snapshot(active, infos)) =~= seq![
        UpdateView::Focus { old, new },
        UpdateView::Update(new),
    ]);
}

/// A change of the active monitor never gives an `Update`: it gives one
/// `Focus` or nothing, and nothing when the focus stays on the same workspace.
pub proof fn lemma_monitor_change_focus_only(
    prior: Seq<WorkspaceView>,
    active: i32,
    infos: Seq<WorkspaceInfo>,
    t: WorkspaceType,
)
    ensures
        ({
            let r = emissions(
                WorkspaceEvent::ActiveMonitorChanged(t),
                prior,
                snapshot(active, infos),
            );
            &&& r.len() <= 1
            &&& forall|i: int| 0 <= i < r.len() ==> (#[trigger] r[i]) is Focus
            &&& r.len() == 1 <==> moves_focus(prior, snapshot(active, infos), id_of(t))
        }),
{
}

} // verus!
