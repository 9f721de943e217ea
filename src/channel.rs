use vstd::prelude::*;
use std::collections::VecDeque;
use std::sync::mpsc::{Receiver, Sender};
use crate::pipe::{clone_sender, drain_values, open_channel, poll_value, send_value, Received};
use crate::resource::ResourceWatch;
use crate::tasks::{BackendTask, ResourceKind};

verus! {

/// Multi-producer, single-consumer queue of backend tasks, with a second
/// queue that carries the watches of newly stored resources. Senders may be
/// cloned and used from any thread; the owner pops without blocking.
pub struct TasksChannel {
    tx: Sender<BackendTask>,
    rx: Receiver<BackendTask>,
    watch_tx: Sender<ResourceWatch>,
    watch_rx: Receiver<ResourceWatch>,
}

impl TasksChannel {
    pub fn new() -> (r: Self) {
        let (tx, rx) = open_channel();
        let (watch_tx, watch_rx) = open_channel();
        TasksChannel { tx, rx, watch_tx, watch_rx }
    }

    /// A sender into this channel, which has sent nothing yet.
    pub fn sender(&self) -> (r: TaskSender)
        ensures
            r.sent() == Seq::<BackendTask>::empty(),
            r.watch_sender_view().sent() == Seq::<(ResourceKind, u64)>::empty(),
    {
        TaskSender {
            tx: clone_sender(&self.tx),
            watches: WatchSender { tx: clone_sender(&self.watch_tx), log: Ghost(Seq::empty()) },
            log: Ghost(Seq::empty()),
        }
    }

    /// The oldest queued task, if any. The channel keeps a sender of its
    /// own, so it is never disconnected.
    pub fn pop(&self) -> (r: Option<BackendTask>) {
        match poll_value(&self.rx) {
            Received::Value(t) => Some(t),
            Received::Empty => None,
            Received::Disconnected => None,
        }
    }

    /// Every task queued now, oldest first.
    pub fn pop_all(&self) -> (r: VecDeque<BackendTask>) {
        drain_values(&self.rx)
    }

    /// Every resource watch queued now, oldest first.
    pub fn pop_watches(&self) -> (r: VecDeque<ResourceWatch>) {
        drain_values(&self.watch_rx)
    }
}

/// Sends tasks into a `TasksChannel`, and records, in order, the tasks it
/// has handed over.
pub struct TaskSender {
    tx: Sender<BackendTask>,
    watches: WatchSender,
    log: Ghost<Seq<BackendTask>>,
}

impl TaskSender {
    /// The tasks handed to the channel through this sender, oldest first.
    pub closed spec fn sent(&self) -> Seq<BackendTask> {
        self.log@
    }

    pub closed spec fn watch_sender_view(&self) -> WatchSender {
        self.watches
    }

    /// Queues `task`. Never blocks and never fails for the caller: when the
    /// channel is gone the task is discarded.
    pub fn send(&mut self, task: BackendTask)
        ensures
            final(self).sent() == old(self).sent().push(task),
    {
        let ghost t = task;
        let _ = send_value(&self.tx, task);
        self.log = Ghost(self.log@.push(t));
    }

    /// A sender of resource watches into the same channel, which has sent
    /// nothing yet.
    pub fn watch_sender(&self) -> (r: WatchSender)
        ensures
            r.sent() == Seq::<(ResourceKind, u64)>::empty(),
    {
        self.watches.clone()
    }
}

impl Clone for TaskSender {
    /// Another sender into the same channel; its record starts empty.
    fn clone(&self) -> (r: Self)
        ensures
            r.sent() == Seq::<BackendTask>::empty(),
    {
        TaskSender { tx: clone_sender(&self.tx), watches: self.watches.clone(), log: Ghost(Seq::empty()) }
    }
}

/// Sends the watches of newly stored resources to the orchestration loop,
/// and records, in order, which resources it has handed over.
pub struct WatchSender {
    tx: Sender<ResourceWatch>,
    log: Ghost<Seq<(ResourceKind, u64)>>,
}

impl WatchSender {
    /// The resources whose watches were handed over, oldest first.
    pub closed spec fn sent(&self) -> Seq<(ResourceKind, u64)> {
        self.log@
    }

    /// Queues `watch`; discarded when the channel is gone.
    pub fn send(&mut self, watch: ResourceWatch)
        ensures
            final(self).sent() == old(self).sent().push(watch.key()),
    {
        let ghost k = watch.key();
        let _ = send_value(&self.tx, watch);
        self.log = Ghost(self.log@.push(k));
    }
}

impl Clone for WatchSender {
    /// Another sender into the same channel; its record starts empty.
    fn clone(&self) -> (r: Self)
        ensures
            r.sent() == Seq::<(ResourceKind, u64)>::empty(),
    {
        WatchSender { tx: clone_sender(&self.tx), log: Ghost(Seq::empty()) }
    }
}

} // verus!
