use vstd::prelude::*;
use crate::channel::TasksChannel;
use crate::errors::GfxBackendUpdateError;
use crate::handler::GfxHandler;
use crate::tasks::BackendTask;
use crate::watches::{collect_step, ResourceWatches};

verus! {

/// Storage and rendering primitives, driven from the orchestration loop
/// only, so an implementation need not be thread-safe.
pub trait GfxBackend {
    /// Starts non-blocking execution of `task`.
    fn run_task(&mut self, task: BackendTask);

    /// Polls the work in flight; answers whether some of it is unfinished.
    fn update(&mut self) -> Result<bool, GfxBackendUpdateError>;
}

/// The orchestration frontend: owns the backend and the task channel, and
/// runs every queued task on the thread that calls it. Once the backend has
/// failed it is finished for good.
pub struct Gfx<B> {
    channel: TasksChannel,
    watches: ResourceWatches,
    backend: B,
    working: bool,
    handed: Ghost<Seq<BackendTask>>,
}

impl<B: GfxBackend> Gfx<B> {
    pub closed spec fn working(&self) -> bool {
        self.working
    }

    /// The resources whose handles are watched.
    pub closed spec fn watched(&self) -> ResourceWatches {
        self.watches
    }

    /// Every task handed to the backend, in the order it was handed over.
    pub closed spec fn handed(&self) -> Seq<BackendTask> {
        self.handed@
    }

    pub open spec fn wf(&self) -> bool {
        self.watched().wf()
    }

    pub fn new(backend: B) -> (r: Self)
        ensures
            r.working(),
            r.wf(),
            r.watched().keys().len() == 0,
            r.handed() == Seq::<BackendTask>::empty(),
            r.backend_view() == backend,
    {
        Gfx {
            channel: TasksChannel::new(),
            watches: ResourceWatches::new(),
            backend,
            working: true,
            handed: Ghost(Seq::empty()),
        }
    }

    /// A handler whose requests go to this frontend.
    pub fn create_handler(&self) -> (r: GfxHandler)
        ensures
            r.sent() == Seq::<BackendTask>::empty(),
    {
        GfxHandler::new(self.channel.sender())
    }

    /// Whether the loop still runs tasks; `false` is final.
    pub fn is_working(&self) -> (r: bool)
        ensures
            r == self.working(),
    {
        self.working
    }

    /// Number of stored resources that still have handles.
    pub fn watched_count(&self) -> (r: usize)
        ensures
            r == self.watched().keys().len(),
    {
        self.watches.len()
    }

    pub closed spec fn backend_view(&self) -> B {
        self.backend
    }

    /// The backend, for inspection.
    pub fn backend(&self) -> (r: &B)
        ensures
            *r == self.backend_view(),
    {
        &self.backend
    }

    /// Runs every queued task, oldest first, then starts watching the
    /// resources stored meanwhile, then frees, once each, the resources whose
    /// handles are all gone. A finished frontend does nothing.
    ///
    /// After a working pump, the backend has been handed the queued tasks
    /// and then the removals of one collection over a watch table that kept
    /// every resource watched before.
    pub fn run_tasks(&mut self)
        requires
            old(self).wf(),
        ensures
            final(self).wf(),
            final(self).working() == old(self).working(),
            !old(self).working() ==> {
                &&& final(self).watched() == old(self).watched()
                &&& final(self).backend_view() == old(self).backend_view()
                &&& final(self).handed() == old(self).handed()
            },
            old(self).working() ==> exists|
                queued: Seq<BackendTask>,
                mid: ResourceWatches,
                out: Seq<BackendTask>,
            |
                {
                    &&& forall|k|
                        old(self).watched().keys().contains(k) ==> #[trigger] mid.keys().contains(k)
                    &&& collect_step(mid, out, final(self).watched())
                    &&& final(self).handed() == old(self).handed() + queued + out
                },
    {
        if !self.working {
            return;
        }
        let mut tasks = self.channel.pop_all();
        let ghost queued = tasks@;
        let ghost h0 = self.handed@;
        while tasks.len() > 0
            invariant
                self.watches == old(self).watches,
                self.working,
                self.handed@ + tasks@ == h0 + queued,
            decreases tasks@.len(),
        {
            let ghost before = tasks@;
            let task = tasks.pop_front().unwrap();
            let ghost t = task;
            self.backend.run_task(task);
            self.handed = Ghost(self.handed@.push(t));
            assert(before =~= seq![t] + tasks@);
            assert(self.handed@ + tasks@ =~= h0 + queued) by {
                assert(self.handed@ + tasks@ =~= (self.handed@.drop_last() + before));
            }
        }
        assert(self.handed@ =~= h0 + queued);
        let mut arrived = self.channel.pop_watches();
        while arrived.len() > 0
            invariant
                self.watches.wf(),
                self.working,
                self.handed@ == h0 + queued,
                forall|k|
                    old(self).watches.keys().contains(k) ==> #[trigger] self.watches.keys().contains(k),
            decreases arrived@.len(),
        {
            let watch = arrived.pop_front().unwrap();
            let ghost before = self.watches.keys();
            let _ = self.watches.register(watch);
            assert forall|k| before.contains(k) implies #[trigger] self.watches.keys().contains(k) by {
                if before.contains(k) {
                    let i = choose|i: int| 0 <= i < before.len() && before[i] == k;
                    assert(self.watches.keys()[i] == k);
                }
            }
        }
        let ghost mid = self.watches;
        let ghost h1 = self.handed@;
        self.free_released();
        let ghost out = choose|out: Seq<BackendTask>|
            {
                &&& collect_step(mid, out, self.watched())
                &&& self.handed() == h1 + out
            };
        assert(self.handed() =~= old(self).handed() + queued + out);
        assert(forall|k|
            old(self).watched().keys().contains(k) ==> #[trigger] mid.keys().contains(k));
        assert(collect_step(mid, out, self.watched()));
    }

    /// Hands the removal of every resource whose handles are all gone to the
    /// backend, once each.
    fn free_released(&mut self)
        requires
            old(self).wf(),
            old(self).working(),
        ensures
            final(self).working(),
            exists|out: Seq<BackendTask>|
                {
                    &&& collect_step(old(self).watched(), out, final(self).watched())
                    &&& final(self).handed() == old(self).handed() + out
                },
    {
        let mut released = self.watches.collect_released();
        let ghost out = released@;
        let ghost after = self.watches;
        let ghost h0 = self.handed@;
        while released.len() > 0
            invariant
                self.watches == after,
                self.working,
                self.handed@ + released@ == h0 + out,
            decreases released@.len(),
        {
            let ghost before = released@;
            let task = released.remove(0);
            let ghost t = task;
            self.backend.run_task(task);
            self.handed = Ghost(self.handed@.push(t));
            assert(before =~= seq![t] + released@);
            assert(self.handed@ + released@ =~= (self.handed@.drop_last() + before));
        }
        assert(self.handed@ =~= h0 + out);
        assert(collect_step(old(self).watched(), out, self.watched()));
        assert(self.handed() == old(self).handed() + out);
    }

    /// Polls the backend. A failure finishes the frontend and is returned;
    /// a finished frontend answers `Ok(false)`.
    pub fn update(&mut self) -> (r: Result<bool, GfxBackendUpdateError>)
        ensures
            !old(self).working() ==> r matches Ok(false),
            final(self).working() == (old(self).working() && r is Ok),
            final(self).watched() == old(self).watched(),
            final(self).handed() == old(self).handed(),
    {
        if !self.working {
            return Ok(false);
        }
        let result = self.backend.update();
        self.settle_update(result)
    }

    /// Applies what the backend's `update` answered: an error ends the work
    /// of the frontend for good; the answer is passed on.
    pub fn settle_update(&mut self, result: Result<bool, GfxBackendUpdateError>) -> (r: Result<
        bool,
        GfxBackendUpdateError,
    >)
        ensures
            r == result,
            final(self).working() == (old(self).working() && result is Ok),
            final(self).watched() == old(self).watched(),
            final(self).handed() == old(self).handed(),
            final(self).backend_view() == old(self).backend_view(),
    {
        if result.is_err() {
            self.working = false;
        }
        result
    }
}

} // verus!
