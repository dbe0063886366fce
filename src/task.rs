use vstd::prelude::*;

verus! {

#[verifier::external_type_specification]
#[verifier::external_body]
pub struct ExWaker(std::task::Waker);

/// Relies on `Waker::wake_by_ref`: signals the task behind the waker and
/// keeps the waker usable. Nothing about the task is observable here.
pub assume_specification[ std::task::Waker::wake_by_ref ](w: &std::task::Waker);

/// The shared cell behind a wake callback that the host runtime holds.
///
/// The cell owns one native waker. Every host-side handle to the callback
/// counts once in `refs`; the waker is released when the last handle goes.
pub struct WakeCallback {
    waker: Option<std::task::Waker>,
    refs: u64,
    woken: bool,
}

impl WakeCallback {
    /// Number of live host-side handles.
    pub closed spec fn refs(&self) -> nat {
        self.refs as nat
    }

    /// Whether the callback has been invoked while a handle was live.
    pub closed spec fn woken(&self) -> bool {
        self.woken
    }

    /// Whether the cell still owns its native waker.
    pub closed spec fn holds_waker(&self) -> bool {
        self.waker.is_some()
    }

    /// The waker is held exactly while some handle is live.
    pub closed spec fn wf(&self) -> bool {
        self.waker.is_some() == (self.refs > 0)
    }

    /// Wraps a native waker; the returned cell has one handle.
    pub fn new(waker: std::task::Waker) -> (r: Self)
        ensures
            r.wf(),
            r.refs() == 1,
            !r.woken(),
            r.holds_waker(),
    {
        WakeCallback { waker: Some(waker), refs: 1, woken: false }
    }

    /// The host runtime made one more handle to the callback.
    pub fn retain(&mut self)
        requires
            old(self).wf(),
            old(self).refs() > 0,
            old(self).refs() < u64::MAX,
        ensures
            final(self).wf(),
            final(self).refs() == old(self).refs() + 1,
            final(self).woken() == old(self).woken(),
            final(self).holds_waker(),
    {
        self.refs = self.refs + 1;
    }

    /// The host runtime collected one handle. Returns whether that was the
    /// last one, in which case the native waker has been released.
    pub fn release(&mut self) -> (last: bool)
        requires
            old(self).wf(),
            old(self).refs() > 0,
        ensures
            final(self).wf(),
            final(self).refs() == old(self).refs() - 1,
            final(self).woken() == old(self).woken(),
            last == (final(self).refs() == 0),
            final(self).holds_waker() == !last,
    {
        self.refs = self.refs - 1;
        if self.refs == 0 {
            self.waker = None;
            true
        } else {
            false
        }
    }

    /// Invokes the callback through a handle that stays live: signals the
    /// native waker.
    pub fn wake_by_ref(&mut self)
        requires
            old(self).wf(),
        ensures
            final(self).wf(),
            final(self).refs() == old(self).refs(),
            final(self).holds_waker() == old(self).holds_waker(),
            final(self).woken() == (old(self).woken() || old(self).refs() > 0),
    {
        match &self.waker {
            Some(w) => {
                w.wake_by_ref();
                self.woken = true;
            },
            None => {},
        }
    }

    /// Invokes the callback. The cell keeps its own reference to the
    /// waker, so this is the same operation as `wake_by_ref`.
    pub fn wake(&mut self)
        requires
            old(self).wf(),
        ensures
            final(self).wf(),
            final(self).refs() == old(self).refs(),
            final(self).holds_waker() == old(self).holds_waker(),
            final(self).woken() == (old(self).woken() || old(self).refs() > 0),
    {
        self.wake_by_ref()
    }

    /// Number of live host-side handles.
    pub fn ref_count(&self) -> (r: u64)
        ensures
            r as nat == self.refs(),
    {
        self.refs
    }

    /// Whether the callback has signalled its waker.
    pub fn is_woken(&self) -> (r: bool)
        ensures
            r == self.woken(),
    {
        self.woken
    }
}

/// What the host runtime does to the wake callbacks of one native waker:
/// make a new callback, copy a handle to callback `i`, or collect one.
pub enum HandleEvent {
    Construct,
    Copy(u64),
    Drop(u64),
}

/// The handle count of one callback after an event that concerns it, as
/// `WakeCallback::new`, `retain` and `release` leave it.
pub open spec fn count_after(refs: nat, ev: HandleEvent) -> nat {
    match ev {
        HandleEvent::Construct => 1,
        HandleEvent::Copy(_) => refs + 1,
        HandleEvent::Drop(_) => (refs - 1) as nat,
    }
}

/// The handle counts of all callbacks made so far, in order of
/// construction, after a history of events.
pub open spec fn handle_counts(events: Seq<HandleEvent>) -> Seq<nat>
    decreases events.len(),
{
    if events.len() == 0 {
        seq![]
    } else {
        let c = handle_counts(events.drop_last());
        let ev = events.last();
        match ev {
            HandleEvent::Construct => c.push(count_after(0, ev)),
            HandleEvent::Copy(i) => if i < c.len() {
                c.update(i as int, count_after(c[i as int], ev))
            } else {
                c
            },
            HandleEvent::Drop(i) => if i < c.len() {
                c.update(i as int, count_after(c[i as int], ev))
            } else {
                c
            },
        }
    }
}

/// A history the host runtime can produce: each copy or collection
/// concerns a callback that exists and still has a live handle.
pub open spec fn valid_history(events: Seq<HandleEvent>) -> bool
    decreases events.len(),
{
    if events.len() == 0 {
        true
    } else {
        valid_history(events.drop_last()) && match events.last() {
            HandleEvent::Construct => true,
            HandleEvent::Copy(i) => i < handle_counts(events.drop_last()).len()
                && handle_counts(events.drop_last())[i as int] > 0,
            HandleEvent::Drop(i) => i < handle_counts(events.drop_last()).len()
                && handle_counts(events.drop_last())[i as int] > 0,
        }
    }
}

/// Number of events of each kind: constructions, copies and collections.
pub open spec fn event_tally(events: Seq<HandleEvent>) -> (nat, nat, nat)
    decreases events.len(),
{
    if events.len() == 0 {
        (0, 0, 0)
    } else {
        let (n, m, k) = event_tally(events.drop_last());
        match events.last() {
            HandleEvent::Construct => (n + 1, m, k),
            HandleEvent::Copy(_) => (n, m + 1, k),
            HandleEvent::Drop(_) => (n, m, k + 1),
        }
    }
}

/// Sum of a sequence of counts.
pub open spec fn total(s: Seq<nat>) -> nat
    decreases s.len(),
{
    if s.len() == 0 {
        0
    } else {
        total(s.drop_last()) + s.last()
    }
}

proof fn lemma_total_update(s: Seq<nat>, i: int, v: nat)
    requires
        0 <= i < s.len(),
    ensures
        total(s.update(i, v)) + s[i] == total(s) + v,
    decreases s.len(),
{
    let u = s.update(i, v);
    assert(u.drop_last() =~= if i == s.len() - 1 { s.drop_last() } else { s.drop_last().update(i, v) });
    if i < s.len() - 1 {
        lemma_total_update(s.drop_last(), i, v);
    }
}

/// Reference counting of wake callbacks: after any history the host
/// runtime can produce, with `n` constructions, `m` copies and `k`
/// collections, the native waker is held `1 + n + m - k` times: once by its
/// owner and once by each live host-side handle.
pub proof fn lemma_handle_count(events: Seq<HandleEvent>)
    requires
        valid_history(events),
    ensures
        ({
            let (n, m, k) = event_tally(events);
            k <= n + m && 1 + total(handle_counts(events)) == 1 + n + m - k
        }),
    decreases events.len(),
{
    if events.len() > 0 {
        let prev = events.drop_last();
        lemma_handle_count(prev);
        let c = handle_counts(prev);
        match events.last() {
            HandleEvent::Construct => {
                assert(c.push(1nat).drop_last() =~= c);
            },
            HandleEvent::Copy(i) => {
                lemma_total_update(c, i as int, c[i as int] + 1);
            },
            HandleEvent::Drop(i) => {
                lemma_total_update(c, i as int, (c[i as int] - 1) as nat);
                lemma_total_positive(c, i as int);
            },
        }
    }
}

proof fn lemma_total_positive(s: Seq<nat>, i: int)
    requires
        0 <= i < s.len(),
    ensures
        s[i] <= total(s),
    decreases s.len(),
{
    if i < s.len() - 1 {
        lemma_total_positive(s.drop_last(), i);
    }
}

} // verus!
