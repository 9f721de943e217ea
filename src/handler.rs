use vstd::prelude::*;
use crate::channel::TaskSender;
use crate::errors::{ReadError, TaskResult};
use crate::resource::{GfxResource, ResourceSetter};
use crate::set_get::{setter_getter, Getter};
use crate::tasks::{AddTask, BackendTask, ReadTask, ResId, ResourceKind};

verus! {

/// What callers use to request work: each request is queued as a task and
/// answered through the getter it returns.
pub struct GfxHandler {
    task_sender: TaskSender,
}

impl GfxHandler {
    /// The tasks handed to the channel by this handler, oldest first.
    pub closed spec fn sent(&self) -> Seq<BackendTask> {
        self.task_sender.sent()
    }

    pub fn new(task_sender: TaskSender) -> (r: Self)
        ensures
            r.sent() == task_sender.sent(),
    {
        GfxHandler { task_sender }
    }

    /// Queues the storing of `data` as a new resource: one add task that
    /// carries `data` and a fresh setter. The getter answers with the handle
    /// of the stored resource, or with why it could not be stored.
    pub fn add_resource<R: ResId>(&mut self, data: R::Data) -> (r: Getter<
        TaskResult<GfxResource<R>>,
    >)
        ensures
            !r.is_done(),
            exists|t: AddTask<R, R::Data>|
                {
                    &&& final(self).sent() == old(self).sent().push(R::wrap_add(t))
                    &&& t.data_view() == data
                    &&& !t.setter_view().is_done()
                    &&& t.setter_view().handed_over() is None
                    &&& t.setter_view().watches_sent() == Seq::<(ResourceKind, u64)>::empty()
                },
    {
        let (setter, getter) = setter_getter();
        let result_setter = ResourceSetter::new(setter, self.task_sender.watch_sender());
        let task = AddTask::new(data, result_setter);
        let ghost t = task;
        self.task_sender.send(R::add(task));
        getter
    }

    /// Queues a read of the data of `resource`: one read task for its id,
    /// with a fresh setter. The task holds a clone of the handle, so the
    /// resource stays stored until the read is answered.
    pub fn read_resource_data<R: ResId>(&mut self, resource: &GfxResource<R>) -> (r: Getter<
        Result<R::Data, ReadError>,
    >)
        ensures
            !r.is_done(),
            exists|t: ReadTask<R, R::Data>|
                {
                    &&& final(self).sent() == old(self).sent().push(R::wrap_read(t))
                    &&& t.target() == resource.res_id()
                    &&& !t.setter_view().is_done()
                    &&& t.setter_view().handed_over() is None
                },
    {
        let (setter, getter) = setter_getter();
        let task = ReadTask::new(resource.clone(), setter);
        let ghost t = task;
        self.task_sender.send(R::read(task));
        getter
    }
}

impl Clone for GfxHandler {
    /// Another handler on the same channel; its record starts empty.
    fn clone(&self) -> (r: Self)
        ensures
            r.sent() == Seq::<BackendTask>::empty(),
    {
        GfxHandler { task_sender: self.task_sender.clone() }
    }
}

} // verus!
