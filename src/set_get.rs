use vstd::prelude::*;
use std::sync::mpsc::{Receiver, Sender};
use crate::errors::GetError;
use crate::pipe::{open_channel, poll_value, send_value, wait_value, Received};

verus! {

#[verifier::reject_recursive_types(T)]
enum SetterState<T> {
    Ready(Sender<T>),
    Done,
}

/// Producing end of a one-shot result channel: the first `set` delivers,
/// later ones are ignored.
#[verifier::reject_recursive_types(T)]
pub struct Setter<T> {
    state: SetterState<T>,
    handed: Ghost<Option<T>>,
}

#[verifier::reject_recursive_types(T)]
enum GetterState<T> {
    Waiting(Receiver<T>),
    Done,
}

/// Consuming end of a one-shot result channel.
#[verifier::reject_recursive_types(T)]
pub struct Getter<T> {
    state: GetterState<T>,
}

/// What a receive attempt that found `outcome` reports to the caller.
pub open spec fn resolved<T>(outcome: Received<T>) -> Result<T, GetError> {
    match outcome {
        Received::Value(v) => Ok(v),
        Received::Empty => Err(GetError::NotReady),
        Received::Disconnected => Err(GetError::ProducerGone),
    }
}

/// Turns what the channel gave into the getter's answer: a value, or that
/// none is there yet, or that none will ever come.
pub fn resolve<T>(outcome: Received<T>) -> (r: Result<T, GetError>)
    ensures
        r == resolved(outcome),
{
    match outcome {
        Received::Value(v) => Ok(v),
        Received::Empty => Err(GetError::NotReady),
        Received::Disconnected => Err(GetError::ProducerGone),
    }
}

impl<T> Setter<T> {
    /// Whether this setter has delivered (or given up) its one value.
    pub closed spec fn is_done(&self) -> bool {
        self.state is Done
    }

    /// The value handed to the channel, once one has been.
    pub closed spec fn handed_over(&self) -> Option<T> {
        self.handed@
    }

    pub fn is_set(&self) -> (r: bool)
        ensures
            r == self.is_done(),
    {
        match &self.state {
            SetterState::Ready(_) => false,
            SetterState::Done => true,
        }
    }

    /// Delivers `value` if nothing was set before; a later call changes
    /// nothing and returns `false`. A getter that is gone does not make the
    /// call fail: the value is then discarded.
    pub fn set(&mut self, value: T) -> (r: bool)
        ensures
            set_step(*old(self), r, *final(self)),
            r ==> final(self).handed_over() == Some(value),
            !r ==> final(self).handed_over() == old(self).handed_over(),
    {
        let ghost v = value;
        let delivered = match &self.state {
            SetterState::Ready(tx) => {
                let _ = send_value(tx, value);
                true
            },
            SetterState::Done => false,
        };
        self.state = SetterState::Done;
        if delivered {
            self.handed = Ghost(Some(v));
        }
        delivered
    }
}

/// One call of `Setter::set`, from `before` to `after`, answered `r`.
pub open spec fn set_step<T>(before: Setter<T>, r: bool, after: Setter<T>) -> bool {
    &&& r == !before.is_done()
    &&& after.is_done()
}

impl<T> Getter<T> {
    /// Whether the value has been handed out already.
    pub closed spec fn is_done(&self) -> bool {
        self.state is Done
    }

    pub fn is_taken(&self) -> (r: bool)
        ensures
            r == self.is_done(),
    {
        match &self.state {
            GetterState::Waiting(_) => false,
            GetterState::Done => true,
        }
    }

    /// Takes the value if it is there, without blocking.
    pub fn try_get(&mut self) -> (r: Result<T, GetError>)
        ensures
            get_step(*old(self), r, *final(self)),
    {
        let r = match &self.state {
            GetterState::Waiting(rx) => resolve(poll_value(rx)),
            GetterState::Done => Err(GetError::AlreadyTaken),
        };
        if r.is_ok() {
            self.state = GetterState::Done;
        }
        r
    }

    /// Blocks until the value comes or the setter is gone without setting one.
    pub fn wait(&mut self) -> (r: Result<T, GetError>)
        ensures
            get_step(*old(self), r, *final(self)),
            r != Err::<T, GetError>(GetError::NotReady),
    {
        let r = match &self.state {
            GetterState::Waiting(rx) => match wait_value(rx) {
                Some(v) => resolve(Received::Value(v)),
                None => resolve(Received::Disconnected),
            },
            GetterState::Done => Err(GetError::AlreadyTaken),
        };
        if r.is_ok() {
            self.state = GetterState::Done;
        }
        r
    }
}

/// One attempt to take from a getter, from `before` to `after`, answered `r`:
/// a getter that handed out its value answers `AlreadyTaken`; a waiting one
/// answers what the channel held and is done exactly when it handed out a value.
pub open spec fn get_step<T>(before: Getter<T>, r: Result<T, GetError>, after: Getter<T>) -> bool {
    &&& before.is_done() ==> r == Err::<T, GetError>(GetError::AlreadyTaken)
    &&& !before.is_done() ==> exists|o: Received<T>| r == resolved(o)
    &&& after.is_done() == (before.is_done() || r is Ok)
}

/// A connected setter and getter, neither of them used yet.
pub fn setter_getter<T>() -> (r: (Setter<T>, Getter<T>))
    ensures
        !r.0.is_done(),
        r.0.handed_over() is None,
        !r.1.is_done(),
{
    let (tx, rx) = open_channel();
    (
        Setter { state: SetterState::Ready(tx), handed: Ghost(None) },
        Getter { state: GetterState::Waiting(rx) },
    )
}

/// Setting twice: the second `set` is refused and the setter stays done, so
/// at most one value ever enters the channel.
pub proof fn lemma_second_set_ignored<T>(
    s0: Setter<T>,
    r1: bool,
    s1: Setter<T>,
    r2: bool,
    s2: Setter<T>,
)
    requires
        set_step(s0, r1, s1),
        set_step(s1, r2, s2),
    ensures
        !r2,
        s2.is_done(),
{
}

/// Single delivery: after a getter handed out a value, every further attempt
/// answers `AlreadyTaken`, never the value again.
pub proof fn lemma_single_delivery<T>(
    g0: Getter<T>,
    r1: Result<T, GetError>,
    g1: Getter<T>,
    r2: Result<T, GetError>,
    g2: Getter<T>,
)
    requires
        get_step(g0, r1, g1),
        r1 is Ok,
        get_step(g1, r2, g2),
    ensures
        r2 == Err::<T, GetError>(GetError::AlreadyTaken),
        g2.is_done(),
{
}

/// A getter that has not handed out its value never answers `AlreadyTaken`:
/// it answers with the value, `NotReady`, or `ProducerGone`.
pub proof fn lemma_waiting_getter_never_already_taken<T>(g0: Getter<T>, r: Result<T, GetError>, g1: Getter<T>)
    requires
        get_step(g0, r, g1),
        !g0.is_done(),
    ensures
        r != Err::<T, GetError>(GetError::AlreadyTaken),
{
}

} // verus!
