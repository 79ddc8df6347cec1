use crate::events::{apply_event, emissions, WorkspaceEvent};
use crate::store::{at_most_one_focused, lemma_snapshot_focus, snapshot, WorkspaceStore};
use crate::workspace::{
    update_views, views_of, UpdateView, Workspace, WorkspaceInfo, WorkspaceUpdate, WorkspaceView,
};
use tokio::sync::broadcast::{Receiver, Sender};
use vstd::prelude::*;

verus! {

#[verifier::external_type_specification]
#[verifier::external_body]
#[verifier::reject_recursive_types(T)]
pub struct ExSender<T>(Sender<T>);

#[verifier::external_type_specification]
#[verifier::external_body]
#[verifier::reject_recursive_types(T)]
pub struct ExReceiver<T>(Receiver<T>);

/// How many messages a subscriber may fall behind before it sees a gap.
pub const CHANNEL_CAPACITY: usize = 16;

/// How many receivers a client hands out over its life. The channel panics
/// once `usize::MAX / 4` receivers are alive; the client keeps one itself.
pub const SUBSCRIBER_LIMIT: usize = usize::MAX / 4 - 2;

/// Every message sent on the channel of `tx` since the channel was made, in
/// order. A receiver of the channel reads this sequence from its start index
/// on; one that falls more than the capacity behind sees a gap.
pub uninterp spec fn tx_sent(tx: Sender<WorkspaceUpdate>) -> Seq<UpdateView>;

/// Which channel `tx` sends on.
pub uninterp spec fn tx_channel(tx: Sender<WorkspaceUpdate>) -> int;

/// The capacity that the channel of `tx` was made with.
pub uninterp spec fn tx_capacity(tx: Sender<WorkspaceUpdate>) -> nat;

/// Which channel `rx` reads from.
pub uninterp spec fn rx_channel(rx: Receiver<WorkspaceUpdate>) -> int;

/// The index in its channel's sent messages of the first message that `rx`
/// reads.
pub uninterp spec fn rx_start(rx: Receiver<WorkspaceUpdate>) -> nat;

/// Relies on `tokio::sync::broadcast::channel`: a new channel with nothing
/// sent, its sender, and one receiver that reads from the first message. It
/// panics when `capacity` is 0 or above `usize::MAX / 2`.
#[verifier::external_body]
fn new_channel(capacity: usize) -> (r: (Sender<WorkspaceUpdate>, Receiver<WorkspaceUpdate>))
    requires
        0 < capacity <= usize::MAX / 2,
    ensures
        tx_sent(r.0) == Seq::<UpdateView>::empty(),
        tx_capacity(r.0) == capacity as nat,
        rx_channel(r.1) == tx_channel(r.0),
        rx_start(r.1) == 0,
{
    tokio::sync::broadcast::channel(capacity)
}

/// Relies on `tokio::sync::broadcast::Sender::subscribe`: a receiver of the
/// same channel that reads the messages sent after this call. It panics once
/// `usize::MAX / 4` receivers are alive, which `EventClient` keeps out of
/// reach by counting.
#[verifier::external_body]
fn new_receiver(tx: &Sender<WorkspaceUpdate>) -> (r: Receiver<WorkspaceUpdate>)
    ensures
        rx_channel(r) == tx_channel(*tx),
        rx_start(r) == tx_sent(*tx).len(),
{
    tx.subscribe()
}

/// Relies on `tokio::sync::broadcast::Sender::send`: appends `update` to the
/// channel's messages without waiting for any receiver. It fails only when no
/// receiver of the channel is alive; `live` is one.
#[verifier::external_body]
fn send_update(
    tx: &mut Sender<WorkspaceUpdate>,
    live: &Receiver<WorkspaceUpdate>,
    update: WorkspaceUpdate,
)
    requires
        rx_channel(*live) == tx_channel(*old(tx)),
    ensures
        tx_sent(*final(tx)) == tx_sent(*old(tx)).push(update@),
        tx_channel(*final(tx)) == tx_channel(*old(tx)),
        tx_capacity(*final(tx)) == tx_capacity(*old(tx)),
{
    let _ = tx.send(update);
}

/// The workspace store together with the channel that carries its updates to
/// every subscriber.
pub struct EventClient {
    store: WorkspaceStore,
    workspace_tx: Sender<WorkspaceUpdate>,
    _workspace_rx: Receiver<WorkspaceUpdate>,
    issued: usize,
}

impl EventClient {
    /// The workspaces that the store holds.
    pub closed spec fn workspaces_view(&self) -> Seq<WorkspaceView> {
        self.store@
    }

    /// Every message sent on the client's channel so far, in order.
    pub closed spec fn sent(&self) -> Seq<UpdateView> {
        tx_sent(self.workspace_tx)
    }

    /// The client's channel.
    pub closed spec fn channel(&self) -> int {
        tx_channel(self.workspace_tx)
    }

    /// The capacity that the client's channel was made with.
    pub closed spec fn capacity(&self) -> nat {
        tx_capacity(self.workspace_tx)
    }

    /// How many receivers have been handed out.
    pub closed spec fn issued(&self) -> nat {
        self.issued as nat
    }

    /// At most one workspace holds the focus, and the client keeps a receiver
    /// of its own channel, so that sending never fails.
    pub closed spec fn wf(&self) -> bool {
        &&& self.store.wf()
        &&& rx_channel(self._workspace_rx) == tx_channel(self.workspace_tx)
    }

    /// A client whose store holds what the compositor reported, with a new
    /// channel of capacity `CHANNEL_CAPACITY` on which nothing was sent.
    pub fn new(active: i32, infos: &Vec<WorkspaceInfo>) -> (r: EventClient)
        ensures
            r.wf(),
            r.workspaces_view() == snapshot(active, infos@),
            r.sent() == Seq::<UpdateView>::empty(),
            r.capacity() == CHANNEL_CAPACITY as nat,
            r.issued() == 0,
    {
        let (workspace_tx, workspace_rx) = new_channel(CHANNEL_CAPACITY);
        let mut store = WorkspaceStore::new();
        store.refresh(active, infos);
        EventClient { store, workspace_tx, _workspace_rx: workspace_rx, issued: 0 }
    }

    /// Sends `update` on the client's channel.
    fn publish(&mut self, update: WorkspaceUpdate)
        requires
            old(self).wf(),
        ensures
            final(self).wf(),
            final(self).sent() == old(self).sent().push(update@),
            final(self).channel() == old(self).channel(),
            final(self).capacity() == old(self).capacity(),
            final(self).workspaces_view() == old(self).workspaces_view(),
            final(self).issued() == old(self).issued(),
    {
        send_update(&mut self.workspace_tx, &self._workspace_rx, update);
    }

    /// Applies a compositor event to the store, given what the compositor now
    /// reports, and sends the updates it gives on the client's channel, in
    /// order.
    pub fn handle_event(&mut self, event: WorkspaceEvent, active: i32, infos: &Vec<WorkspaceInfo>)
        requires
            old(self).wf(),
        ensures
            final(self).wf(),
            final(self).workspaces_view() == snapshot(active, infos@),
            at_most_one_focused(final(self).workspaces_view()),
            final(self).sent() == old(self).sent() + emissions(
                event,
                old(self).workspaces_view(),
                snapshot(active, infos@),
            ),
            final(self).channel() == old(self).channel(),
            final(self).capacity() == old(self).capacity(),
            final(self).issued() == old(self).issued(),
    {
        let mut updates = apply_event(&mut self.store, event, active, infos);
        let ghost all = self.sent() + update_views(updates@);
        while updates.len() > 0
            invariant
                self.wf(),
                self.store@ == snapshot(active, infos@),
                self.channel() == old(self).channel(),
                self.capacity() == old(self).capacity(),
                self.issued == old(self).issued,
                self.sent() + update_views(updates@) == all,
            decreases updates@.len(),
        {
            let ghost before = updates@;
            let u = updates.remove(0);
            proof {
                assert(update_views(before) =~= seq![u@] + update_views(updates@));
            }
            self.publish(u);
            proof {
                assert(self.sent() + update_views(updates@) =~= all);
            }
        }
        proof {
            assert(self.sent() =~= all);
            lemma_snapshot_focus(active, infos@);
        }
    }

    /// A receiver for a new subscriber, on the client's channel. It is made
    /// first; then the store is refreshed with what the compositor reports,
    /// and the full snapshot is sent as an `Init` message. So the receiver's
    /// first message is that snapshot, and it then reads every later message
    /// sent on the channel, in order.
    pub fn subscribe_workspace_change(&mut self, active: i32, infos: &Vec<WorkspaceInfo>) -> (r:
        Receiver<WorkspaceUpdate>)
        requires
            old(self).wf(),
            old(self).issued() < SUBSCRIBER_LIMIT,
        ensures
            final(self).wf(),
            final(self).workspaces_view() == snapshot(active, infos@),
            at_most_one_focused(final(self).workspaces_view()),
            final(self).sent() == old(self).sent().push(
                UpdateView::Init(final(self).workspaces_view()),
            ),
            rx_channel(r) == final(self).channel(),
            rx_start(r) == old(self).sent().len(),
            final(self).sent()[rx_start(r) as int] == UpdateView::Init(snapshot(active, infos@)),
            final(self).channel() == old(self).channel(),
            final(self).capacity() == old(self).capacity(),
            final(self).issued() == old(self).issued() + 1,
    {
        let rx = new_receiver(&self.workspace_tx);
        self.issued = self.issued + 1;
        self.store.refresh(active, infos);
        let init = self.store.init_update();
        self.publish(init);
        proof {
            lemma_snapshot_focus(active, infos@);
        }
        rx
    }

    /// Whether another receiver can be handed out.
    pub fn can_subscribe(&self) -> (r: bool)
        ensures
            r == (self.issued() < SUBSCRIBER_LIMIT),
    {
        self.issued < SUBSCRIBER_LIMIT
    }

    /// A copy of the store's workspaces.
    pub fn workspaces(&self) -> (r: Vec<Workspace>)
        ensures
            views_of(r@) == self.workspaces_view(),
    {
        self.store.workspaces()
    }
}

} // verus!
