use vstd::prelude::*;
use std::sync::mpsc::{Receiver, Sender};
use crate::channel::WatchSender;
use crate::errors::{TaskError, TaskResult};
use crate::pipe::{clone_sender, open_channel};
use crate::set_get::Setter;
use crate::ids::{GeometryId, TexId};
use crate::tasks::{BackendTask, RemoveTask, ResId, ResourceKind, ResourceTask};

verus! {

/// Shared handle of a stored resource.
///
/// Every clone holds a sender of the resource's liveness channel. Nothing is
/// ever sent on it: when the last clone is dropped the channel disconnects,
/// and the orchestration loop, which watches the other end, frees the
/// resource once.
#[verifier::reject_recursive_types(R)]
pub struct GfxResource<R> {
    id: R,
    alive: Sender<()>,
}

impl<R: ResId> GfxResource<R> {
    /// The id of the resource.
    pub closed spec fn res_id(&self) -> R {
        self.id
    }

    /// A first handle of the stored resource `id`, and the watch that frees
    /// it after the handle and all its clones are gone. The watch must reach
    /// the orchestration loop, which `ResourceSetter::set_resource` sees to.
    pub(crate) fn new(id: R) -> (r: (Self, ResourceWatch))
        ensures
            r.0.res_id() == id,
            r.1.key() == (R::kind(), id.raw_id()),
    {
        let (alive, released) = open_channel();
        let kind = R::kind_value();
        let raw = id.to_raw_id();
        (GfxResource { id, alive }, ResourceWatch { kind, raw, released })
    }

    /// The id of the resource. Using the raw id bypasses the lifetime
    /// tracking; the handle must be kept while the id is in use.
    pub fn id(&self) -> (r: R)
        ensures
            r == self.res_id(),
    {
        self.id
    }
}

impl<R: ResId> Clone for GfxResource<R> {
    fn clone(&self) -> (r: Self)
        ensures
            r.res_id() == self.res_id(),
    {
        GfxResource { id: self.id, alive: clone_sender(&self.alive) }
    }
}

/// The orchestration loop's end of a resource's liveness channel: which
/// resource to free once every handle is gone.
pub struct ResourceWatch {
    kind: ResourceKind,
    raw: u64,
    released: Receiver<()>,
}

impl ResourceWatch {
    /// The resource watched: its kind and raw id.
    pub closed spec fn key(&self) -> (ResourceKind, u64) {
        (self.kind, self.raw)
    }

    /// The kind and raw id of the watched resource.
    pub fn watched(&self) -> (r: (ResourceKind, u64))
        ensures
            r == self.key(),
    {
        (self.kind, self.raw)
    }

    /// The release signal: it disconnects when the last handle is dropped.
    pub(crate) fn signal(&self) -> (r: &Receiver<()>) {
        &self.released
    }
}

/// The kind and raw id that a removal task frees.
pub open spec fn removal_key(t: BackendTask) -> Option<(ResourceKind, u64)> {
    match t.removal() {
        Some(raw) => Some((t.kind(), raw)),
        None => None,
    }
}

/// The backend task that frees the resource `key`.
pub fn removal_task(key: (ResourceKind, u64)) -> (r: BackendTask)
    ensures
        removal_key(r) == Some(key),
{
    match key.0 {
        ResourceKind::Tex => BackendTask::Tex(
            ResourceTask::Remove(RemoveTask::new(TexId::from_raw(key.1))),
        ),
        ResourceKind::Geometry => BackendTask::Geometry(
            ResourceTask::Remove(RemoveTask::new(GeometryId::from_raw(key.1))),
        ),
    }
}

/// Takes the outcome of an add task: the new id, wrapped in a handle whose
/// watch goes to the orchestration loop, or the error.
#[verifier::reject_recursive_types(R)]
pub struct ResourceSetter<R> {
    setter: Setter<TaskResult<GfxResource<R>>>,
    watch_sender: WatchSender,
}

impl<R: ResId> ResourceSetter<R> {
    /// Whether the outcome has been set already.
    pub closed spec fn is_done(&self) -> bool {
        self.setter.is_done()
    }

    /// The outcome handed to the getter, once one has been.
    pub closed spec fn handed_over(&self) -> Option<TaskResult<GfxResource<R>>> {
        self.setter.handed_over()
    }

    /// The resources whose watches this setter handed to the loop.
    pub closed spec fn watches_sent(&self) -> Seq<(ResourceKind, u64)> {
        self.watch_sender.sent()
    }

    pub fn new(setter: Setter<TaskResult<GfxResource<R>>>, watch_sender: WatchSender) -> (r: Self)
        ensures
            r.is_done() == setter.is_done(),
            r.handed_over() == setter.handed_over(),
            r.watches_sent() == watch_sender.sent(),
    {
        ResourceSetter { setter, watch_sender }
    }

    /// Delivers the stored resource `id` as a handle, and hands its watch to
    /// the orchestration loop. If the getter is gone, the handle is dropped
    /// at once and the resource is freed at the next pump. A setter that is
    /// done already does nothing and returns `false`.
    pub fn set_resource(&mut self, id: R) -> (r: bool)
        ensures
            r == !old(self).is_done(),
            final(self).is_done(),
            r ==> (final(self).handed_over() matches Some(Ok(h)) && h.res_id() == id),
            r ==> final(self).watches_sent() == old(self).watches_sent().push(
                (R::kind(), id.raw_id()),
            ),
            !r ==> final(self).handed_over() == old(self).handed_over(),
            !r ==> final(self).watches_sent() == old(self).watches_sent(),
    {
        if self.setter.is_set() {
            return false;
        }
        let (res, watch) = GfxResource::new(id);
        self.watch_sender.send(watch);
        self.setter.set(Ok(res))
    }

    /// Delivers the failure of the add task. A setter that is done already
    /// does nothing and returns `false`.
    pub fn set_error(&mut self, error: TaskError) -> (r: bool)
        ensures
            r == !old(self).is_done(),
            final(self).is_done(),
            r ==> final(self).handed_over() == Some(Err::<GfxResource<R>, TaskError>(error)),
            !r ==> final(self).handed_over() == old(self).handed_over(),
            final(self).watches_sent() == old(self).watches_sent(),
    {
        self.setter.set(Err(error))
    }
}

} // verus!
