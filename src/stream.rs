use vstd::prelude::*;
use crate::poll::{decode_spec, StreamPoll};

verus! {

/// A host object as the host answered for it: the reference, and whether
/// the host reported it to be the null sentinel.
pub type Reply<O> = (O, bool);

/// Where a poll of a borrowed stream stands.
pub enum PollStage {
    /// Waiting for the result of the stream's poll-next call.
    Outer,
    /// Waiting for the value held by the poll wrapper.
    Inner,
    /// Waiting for the item held by the stream-poll wrapper.
    Item,
    /// Polling is over.
    Finished,
}

/// What the host side is asked to do next while a stream is polled.
pub enum HostAction<O, M, E> {
    /// Call `method` on `target`, passing the wake callback `waker`, and
    /// reply with the returned object.
    CallPollNext { target: O, method: M, waker: O },
    /// Reply with the value held by the poll wrapper `poll`.
    ReadPoll { poll: O },
    /// Reply with the item held by the stream-poll wrapper `stream_poll`.
    ReadStreamPoll { stream_poll: O },
    /// Polling is over, with this result.
    Finish(Result<StreamPoll<O>, E>),
}

/// One step of a poll: the stage reached and what the host must do next,
/// given the stage before and the host's reply to the last request.
pub open spec fn step_spec<O, M, E>(stage: PollStage, reply: Result<Reply<O>, E>) -> (PollStage, HostAction<O, M, E>) {
    match reply {
        Err(e) => (PollStage::Finished, HostAction::Finish(Err(e))),
        Ok((obj, null)) => match stage {
            PollStage::Outer => if null {
                (PollStage::Finished, HostAction::Finish(Ok(StreamPoll::Pending)))
            } else {
                (PollStage::Inner, HostAction::ReadPoll { poll: obj })
            },
            PollStage::Inner => if null {
                (PollStage::Finished, HostAction::Finish(Ok(StreamPoll::Ready(None))))
            } else {
                (PollStage::Item, HostAction::ReadStreamPoll { stream_poll: obj })
            },
            _ => (PollStage::Finished, HostAction::Finish(Ok(StreamPoll::Ready(Some(obj))))),
        },
    }
}

/// The result of a whole poll, from the host's replies to the poll-next
/// call, to the read of the poll wrapper and to the read of the stream-poll
/// wrapper. A later reply matters only where the earlier ones asked for it.
pub open spec fn poll_outcome<O, E>(
    outer: Result<Reply<O>, E>,
    inner: Result<Reply<O>, E>,
    item: Result<Reply<O>, E>,
) -> Result<StreamPoll<O>, E> {
    match outer {
        Err(e) => Err(e),
        Ok((_, true)) => Ok(StreamPoll::Pending),
        Ok((_, false)) => match inner {
            Err(e) => Err(e),
            Ok((_, true)) => Ok(StreamPoll::Ready(None)),
            Ok((_, false)) => match item {
                Err(e) => Err(e),
                Ok((x, _)) => Ok(StreamPoll::Ready(Some(x))),
            },
        },
    }
}

/// A poll of a borrowed stream in progress.
pub struct PollNextTask {
    stage: PollStage,
}

impl PollNextTask {
    pub closed spec fn stage(&self) -> PollStage {
        self.stage
    }

    /// Takes the host's reply to the last request and says what comes next.
    pub fn resume<O, M, E>(&mut self, reply: Result<Reply<O>, E>) -> (a: HostAction<O, M, E>)
        requires
            !(old(self).stage() is Finished),
        ensures
            (final(self).stage(), a) == step_spec::<O, M, E>(old(self).stage(), reply),
            (a is Finish) == (final(self).stage() is Finished),
    {
        match reply {
            Err(e) => {
                self.stage = PollStage::Finished;
                HostAction::Finish(Err(e))
            },
            Ok((obj, null)) => match self.stage {
                PollStage::Outer => if null {
                    self.stage = PollStage::Finished;
                    HostAction::Finish(Ok(StreamPoll::Pending))
                } else {
                    self.stage = PollStage::Inner;
                    HostAction::ReadPoll { poll: obj }
                },
                PollStage::Inner => if null {
                    self.stage = PollStage::Finished;
                    HostAction::Finish(Ok(StreamPoll::Ready(None)))
                } else {
                    self.stage = PollStage::Item;
                    HostAction::ReadStreamPoll { stream_poll: obj }
                },
                _ => {
                    self.stage = PollStage::Finished;
                    HostAction::Finish(Ok(StreamPoll::Ready(Some(obj))))
                },
            },
        }
    }

    /// Whether the poll is over.
    pub fn is_finished(&self) -> (r: bool)
        ensures
            r == (self.stage() is Finished),
    {
        match self.stage {
            PollStage::Finished => true,
            _ => false,
        }
    }
}

/// The first step of a poll: the wake callback made for the task's waker
/// is handed to the stream's poll-next method, or, where the callback could
/// not be made, the poll fails with that error.
pub open spec fn start_spec<O, M, E>(target: O, method: M, callback: Result<O, E>) -> (PollStage, HostAction<O, M, E>) {
    match callback {
        Err(e) => (PollStage::Finished, HostAction::Finish(Err(e))),
        Ok(waker) => (PollStage::Outer, HostAction::CallPollNext { target, method, waker }),
    }
}

/// A host stream object reachable through the current thread's attachment,
/// with its resolved poll-next method.
pub struct JStream<O, M> {
    internal: O,
    poll_next: M,
}

impl<O: Copy, M: Copy> JStream<O, M> {
    /// The host object.
    pub closed spec fn object(&self) -> O {
        self.internal
    }

    /// The resolved poll-next method.
    pub closed spec fn method(&self) -> M {
        self.poll_next
    }

    /// Wraps `obj`, given the lookup of the poll-next method; a failed
    /// lookup is the error.
    pub fn from_env<E>(obj: O, poll_next: Result<M, E>) -> (r: Result<Self, E>)
        ensures
            poll_next is Ok <==> r is Ok,
            r is Ok ==> r->Ok_0.object() == obj && r->Ok_0.method() == poll_next->Ok_0,
            poll_next is Err ==> r == Err::<Self, E>(poll_next->Err_0),
    {
        match poll_next {
            Ok(m) => Ok(JStream { internal: obj, poll_next: m }),
            Err(e) => Err(e),
        }
    }

    /// Starts a poll that passes `waker` to the host's poll-next method.
    pub fn j_poll_next<E>(&self, waker: O) -> (r: (PollNextTask, HostAction<O, M, E>))
        ensures
            (r.0.stage(), r.1) == start_spec::<O, M, E>(self.object(), self.method(), Ok(waker)),
    {
        (
            PollNextTask { stage: PollStage::Outer },
            HostAction::CallPollNext { target: self.internal, method: self.poll_next, waker },
        )
    }

    /// Starts a poll for a task whose waker was wrapped, or failed to be
    /// wrapped, in a host-side wake callback.
    pub fn poll_next_internal<E>(&self, callback: Result<O, E>) -> (r: (PollNextTask, HostAction<O, M, E>))
        ensures
            (r.0.stage(), r.1) == start_spec::<O, M, E>(self.object(), self.method(), callback),
    {
        match callback {
            Ok(waker) => self.j_poll_next(waker),
            Err(e) => (PollNextTask { stage: PollStage::Finished }, HostAction::Finish(Err(e))),
        }
    }

    /// The host object.
    pub fn as_obj(&self) -> (r: O)
        ensures
            r == self.object(),
    {
        self.internal
    }
}

/// A host call: `method` invoked on `target` without arguments.
pub struct MethodCall<O, M> {
    pub target: O,
    pub method: M,
}

/// A host stream-poll wrapper with its resolved `get` accessor.
pub struct JStreamPoll<O, M> {
    internal: O,
    get: M,
}

impl<O: Copy, M: Copy> JStreamPoll<O, M> {
    /// The host object.
    pub closed spec fn object(&self) -> O {
        self.internal
    }

    /// The resolved accessor.
    pub closed spec fn method(&self) -> M {
        self.get
    }

    /// Wraps `obj`, given the lookup of its accessor; a failed lookup is the
    /// error.
    pub fn from_env<E>(obj: O, get: Result<M, E>) -> (r: Result<Self, E>)
        ensures
            get is Ok <==> r is Ok,
            r is Ok ==> r->Ok_0.object() == obj && r->Ok_0.method() == get->Ok_0,
            get is Err ==> r == Err::<Self, E>(get->Err_0),
    {
        match get {
            Ok(m) => Ok(JStreamPoll { internal: obj, get: m }),
            Err(e) => Err(e),
        }
    }

    /// The host call that reads the wrapped item.
    pub fn get(&self) -> (r: MethodCall<O, M>)
        ensures
            r.target == self.object(),
            r.method == self.method(),
    {
        MethodCall { target: self.internal, method: self.get }
    }
}

/// A host stream object held through a thread-independent strong reference
/// `G`, with a handle `V` to the host runtime.
pub struct JavaStream<G, V> {
    internal: G,
    vm: V,
}

impl<G, V> JavaStream<G, V> {
    /// The strong reference.
    pub closed spec fn global(&self) -> G {
        self.internal
    }

    /// The runtime handle.
    pub closed spec fn runtime(&self) -> V {
        self.vm
    }

    /// Builds the owned adapter from the promotion of a borrowed stream's
    /// object to a strong reference and from the runtime handle; the first
    /// failure is the error.
    pub fn try_from<E>(global: Result<G, E>, vm: Result<V, E>) -> (r: Result<Self, E>)
        ensures
            r is Ok <==> (global is Ok && vm is Ok),
            r is Ok ==> r->Ok_0.global() == global->Ok_0 && r->Ok_0.runtime() == vm->Ok_0,
            global is Err ==> r == Err::<Self, E>(global->Err_0),
            global is Ok && vm is Err ==> r == Err::<Self, E>(vm->Err_0),
    {
        match global {
            Err(e) => Err(e),
            Ok(g) => match vm {
                Err(e) => Err(e),
                Ok(v) => Ok(JavaStream { internal: g, vm: v }),
            },
        }
    }

    /// The strong reference.
    pub fn as_global(&self) -> (r: &G)
        ensures
            *r == self.global(),
    {
        &self.internal
    }

    /// The runtime handle.
    pub fn runtime_handle(&self) -> (r: &V)
        ensures
            *r == self.runtime(),
    {
        &self.vm
    }

    /// Starts a poll on the calling thread. `attached` is the object of the
    /// strong reference as seen through this thread's attachment, `method`
    /// the lookup of the poll-next method and `callback` the wake callback
    /// made for the task's waker; the first failure ends the poll.
    pub fn poll_next_internal<O: Copy, M: Copy, E>(
        &self,
        attached: Result<O, E>,
        method: Result<M, E>,
        callback: Result<O, E>,
    ) -> (r: (PollNextTask, HostAction<O, M, E>))
        ensures
            (r.0.stage(), r.1) == owned_start_spec(attached, method, callback),
    {
        match attached {
            Err(e) => (PollNextTask { stage: PollStage::Finished }, HostAction::Finish(Err(e))),
            Ok(obj) => match JStream::from_env(obj, method) {
                Err(e) => (PollNextTask { stage: PollStage::Finished }, HostAction::Finish(Err(e))),
                Ok(s) => s.poll_next_internal(callback),
            },
        }
    }
}

/// The first step of a poll of an owned adapter: attach, look the method
/// up, then start as a borrowed adapter over the attached object would.
pub open spec fn owned_start_spec<O, M, E>(
    attached: Result<O, E>,
    method: Result<M, E>,
    callback: Result<O, E>,
) -> (PollStage, HostAction<O, M, E>) {
    match attached {
        Err(e) => (PollStage::Finished, HostAction::Finish(Err(e))),
        Ok(obj) => match method {
            Err(e) => (PollStage::Finished, HostAction::Finish(Err(e))),
            Ok(m) => start_spec(obj, m, callback),
        },
    }
}

/// The item an owned adapter yields: a failure before the poll is an error
/// item; otherwise the poll's result with its item promoted.
pub open spec fn owned_item_spec<G, E>(r: Result<StreamPoll<Result<G, E>>, E>) -> StreamPoll<Result<G, E>> {
    match r {
        Ok(p) => p,
        Err(e) => StreamPoll::Ready(Some(Err(e))),
    }
}

/// Turns an owned adapter's fallible poll result into the item a lazy
/// sequence yields.
pub fn owned_item<G, E>(r: Result<StreamPoll<Result<G, E>>, E>) -> (s: StreamPoll<Result<G, E>>)
    ensures
        s == owned_item_spec(r),
{
    match r {
        Ok(p) => p,
        Err(e) => StreamPoll::Ready(Some(Err(e))),
    }
}

/// Where a poll stands, and what it asks of the host, after starting as
/// `start` and taking the host's replies in order.
pub open spec fn run_spec<O, M, E>(
    start: (PollStage, HostAction<O, M, E>),
    replies: Seq<Result<Reply<O>, E>>,
) -> (PollStage, HostAction<O, M, E>)
    decreases replies.len(),
{
    if replies.len() == 0 || start.0 is Finished {
        start
    } else {
        run_spec(step_spec(start.0, replies[0]), replies.drop_first())
    }
}

/// A poll ends after at most three host replies, with the result that the
/// double-nullable decoding of those replies gives: the first failure, or
/// else the decoded wrappers.
pub proof fn lemma_poll_outcome<O, M, E>(
    target: O,
    method: M,
    waker: O,
    outer: Result<Reply<O>, E>,
    inner: Result<Reply<O>, E>,
    item: Result<Reply<O>, E>,
)
    ensures
        run_spec(start_spec::<O, M, E>(target, method, Ok(waker)), seq![outer, inner, item])
            == (PollStage::Finished, HostAction::<O, M, E>::Finish(poll_outcome(outer, inner, item))),
        (outer is Ok && inner is Ok && item is Ok) ==> poll_outcome(outer, inner, item) == Ok::<StreamPoll<O>, E>(
            decode_spec(if outer->Ok_0.1 {
                None
            } else if inner->Ok_0.1 {
                Some(None)
            } else {
                Some(Some(item->Ok_0.0))
            }),
        ),
{
    let s = seq![outer, inner, item];
    assert(s.drop_first() =~= seq![inner, item]);
    assert(s.drop_first().drop_first() =~= seq![item]);
    assert(seq![item].drop_first() =~= Seq::<Result<Reply<O>, E>>::empty());
    reveal_with_fuel(run_spec, 4);
}

/// An item the host hands out comes back as that very item: where the poll
/// wrapper and the stream-poll wrapper are present, the poll is ready with
/// the object the host replied with.
pub proof fn lemma_item_identity<O, E>(outer: O, inner: O, item: O, item_null: bool)
    ensures
        poll_outcome::<O, E>(Ok((outer, false)), Ok((inner, false)), Ok((item, item_null)))
            == Ok::<StreamPoll<O>, E>(StreamPoll::Ready(Some(item))),
{
}

/// A finished sequence reads as its end: where the poll wrapper is present
/// and holds the null sentinel, the poll is ready with no item, whatever
/// else the host would reply.
pub proof fn lemma_end_of_sequence<O, E>(outer: O, inner: O, item: Result<Reply<O>, E>)
    ensures
        poll_outcome::<O, E>(Ok((outer, false)), Ok((inner, true)), item)
            == Ok::<StreamPoll<O>, E>(StreamPoll::Ready(None)),
{
}

/// The owned adapter polls as the borrowed one does: once attached on the
/// calling thread, whichever thread that is, and with the method found, it
/// asks the host for exactly what a borrowed adapter over the attached
/// object asks, and from there both go through the same steps.
pub proof fn lemma_owned_polls_as_borrowed<O, M, E>(obj: O, method: M, callback: Result<O, E>, replies: Seq<Result<Reply<O>, E>>)
    ensures
        owned_start_spec(Ok::<O, E>(obj), Ok::<M, E>(method), callback) == start_spec(obj, method, callback),
        run_spec(owned_start_spec(Ok::<O, E>(obj), Ok::<M, E>(method), callback), replies)
            == run_spec(start_spec(obj, method, callback), replies),
{
}

} // verus!
