use vstd::prelude::*;

verus! {

/// The decimal text of an integer, with a leading `-` when it is negative.
pub open spec fn decimal_of(n: int) -> Seq<char>
    decreases (if n < 0 { 1 - n } else { n }),
{
    if n < 0 {
        seq!['-'] + decimal_of(-n)
    } else if n < 10 {
        seq![digit_char(n)]
    } else {
        decimal_of(n / 10).push(digit_char(n % 10))
    }
}

pub open spec fn digit_char(d: int) -> char {
    ((d + 48) as u8) as char
}

/// Relies on `i32::to_string` (through `Display`): the decimal text of `n`.
#[verifier::external_body]
fn decimal_text(n: i32) -> (r: String)
    ensures
        r@ == decimal_of(n as int),
{
    n.to_string()
}

/// A workspace as the compositor reports it.
pub struct WorkspaceInfo {
    pub id: i32,
    pub name: String,
    pub monitor: String,
}

/// The values of a workspace of the store.
pub struct WorkspaceView {
    pub id: Seq<char>,
    pub name: Seq<char>,
    pub monitor: Seq<char>,
    pub focused: bool,
}

/// A workspace of the store: the compositor's description of it, with its
/// identifier as text, and whether it holds the focus.
#[derive(Debug)]
pub struct Workspace {
    pub id: String,
    pub name: String,
    pub monitor: String,
    pub focused: bool,
}

impl View for Workspace {
    type V = WorkspaceView;

    open spec fn view(&self) -> WorkspaceView {
        WorkspaceView {
            id: self.id@,
            name: self.name@,
            monitor: self.monitor@,
            focused: self.focused,
        }
    }
}

/// What a workspace of the store holds when it is made from `info`.
pub open spec fn view_of_info(info: WorkspaceInfo, focused: bool) -> WorkspaceView {
    WorkspaceView {
        id: decimal_of(info.id as int),
        name: info.name@,
        monitor: info.monitor@,
        focused,
    }
}

impl Workspace {
    /// The workspace that the store keeps for the compositor's `info`.
    pub fn from_info(focused: bool, info: &WorkspaceInfo) -> (r: Workspace)
        ensures
            r@ == view_of_info(*info, focused),
    {
        Workspace {
            id: decimal_text(info.id),
            name: info.name.clone(),
            monitor: info.monitor.clone(),
            focused,
        }
    }

    /// A copy of this workspace.
    pub fn duplicate(&self) -> (r: Workspace)
        ensures
            r@ == self@,
    {
        Workspace {
            id: self.id.clone(),
            name: self.name.clone(),
            monitor: self.monitor.clone(),
            focused: self.focused,
        }
    }
}

impl Clone for Workspace {
    fn clone(&self) -> Self {
        self.duplicate()
    }
}

/// How an event names a workspace: a regular workspace by its name, the
/// special workspace by its name when it has one.
#[derive(Debug)]
pub enum WorkspaceType {
    Regular(String),
    Special(Option<String>),
}

/// The identifier that an event's workspace reference stands for.
pub open spec fn id_of(t: WorkspaceType) -> Seq<char> {
    match t {
        WorkspaceType::Regular(name) => name@,
        WorkspaceType::Special(Some(name)) => name@,
        WorkspaceType::Special(None) => Seq::empty(),
    }
}

/// The identifier that an event's workspace reference stands for: the name,
/// or empty for the special workspace without one.
pub fn id_to_string(id: WorkspaceType) -> (r: String)
    ensures
        r@ == id_of(id),
{
    match id {
        WorkspaceType::Regular(name) => name,
        WorkspaceType::Special(Some(name)) => name,
        WorkspaceType::Special(None) => String::new(),
    }
}

} // verus!

verus! {

/// A message to the subscribers: a full snapshot, or one change.
#[derive(Clone, Debug)]
pub enum WorkspaceUpdate {
    Init(Vec<Workspace>),
    Add(Workspace),
    Update(Workspace),
    Remove(Workspace),
    Move(Workspace),
    Focus { old: Workspace, new: Workspace },
}

/// The values that a `WorkspaceUpdate` carries.
pub enum UpdateView {
    Init(Seq<WorkspaceView>),
    Add(WorkspaceView),
    Update(WorkspaceView),
    Remove(WorkspaceView),
    Move(WorkspaceView),
    Focus { old: WorkspaceView, new: WorkspaceView },
}

/// The values of a sequence of workspaces.
pub open spec fn views_of(s: Seq<Workspace>) -> Seq<WorkspaceView> {
    s.map_values(|w: Workspace| w@)
}

/// The values of a workspace that may be absent.
pub open spec fn view_opt(o: Option<Workspace>) -> Option<WorkspaceView> {
    match o {
        Some(w) => Some(w@),
        None => None,
    }
}

impl View for WorkspaceUpdate {
    type V = UpdateView;

    open spec fn view(&self) -> UpdateView {
        match self {
            WorkspaceUpdate::Init(list) => UpdateView::Init(views_of(list@)),
            WorkspaceUpdate::Add(w) => UpdateView::Add(w@),
            WorkspaceUpdate::Update(w) => UpdateView::Update(w@),
            WorkspaceUpdate::Remove(w) => UpdateView::Remove(w@),
            WorkspaceUpdate::Move(w) => UpdateView::Move(w@),
            WorkspaceUpdate::Focus { old, new } => UpdateView::Focus { old: old@, new: new@ },
        }
    }
}

/// The values of a sequence of updates.
pub open spec fn update_views(s: Seq<WorkspaceUpdate>) -> Seq<UpdateView> {
    s.map_values(|u: WorkspaceUpdate| u@)
}

} // verus!
