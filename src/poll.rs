use vstd::prelude::*;

verus! {

/// The native result of polling a lazy sequence: not ready yet, or ready
/// with either an item (`Some`) or the end of the sequence (`None`).
pub enum StreamPoll<T> {
    Pending,
    Ready(Option<T>),
}

impl<T> StreamPoll<T> {
    pub open spec fn spec_is_pending(&self) -> bool {
        self is Pending
    }

    #[verifier::when_used_as_spec(spec_is_pending)]
    pub fn is_pending(&self) -> (r: bool)
        ensures
            r == self.spec_is_pending(),
    {
        match self {
            StreamPoll::Pending => true,
            StreamPoll::Ready(_) => false,
        }
    }
}

/// How the host's double-nullable poll value reads as a native result:
/// an absent outer wrapper is `Pending`, an absent inner wrapper is the end
/// of the sequence, and otherwise the inner value is the item.
pub open spec fn decode_spec<T>(outer: Option<Option<T>>) -> StreamPoll<T> {
    match outer {
        None => StreamPoll::Pending,
        Some(inner) => StreamPoll::Ready(inner),
    }
}

/// Reads the host's double-nullable poll value as a native result.
pub fn decode<T>(outer: Option<Option<T>>) -> (r: StreamPoll<T>)
    ensures
        r == decode_spec(outer),
{
    match outer {
        None => StreamPoll::Pending,
        Some(inner) => StreamPoll::Ready(inner),
    }
}

/// The item a lazy sequence yields for an adapter's result: a failed poll is
/// reported as an error item, so the sequence does not silently end.
pub open spec fn stream_item_spec<T, E>(r: Result<StreamPoll<T>, E>) -> StreamPoll<Result<T, E>> {
    match r {
        Ok(StreamPoll::Pending) => StreamPoll::Pending,
        Ok(StreamPoll::Ready(None)) => StreamPoll::Ready(None),
        Ok(StreamPoll::Ready(Some(x))) => StreamPoll::Ready(Some(Ok(x))),
        Err(e) => StreamPoll::Ready(Some(Err(e))),
    }
}

/// Turns an adapter's fallible poll result into the item a lazy sequence
/// yields.
pub fn stream_item<T, E>(r: Result<StreamPoll<T>, E>) -> (s: StreamPoll<Result<T, E>>)
    ensures
        s == stream_item_spec(r),
{
    match r {
        Ok(StreamPoll::Pending) => StreamPoll::Pending,
        Ok(StreamPoll::Ready(None)) => StreamPoll::Ready(None),
        Ok(StreamPoll::Ready(Some(x))) => StreamPoll::Ready(Some(Ok(x))),
        Err(e) => StreamPoll::Ready(Some(Err(e))),
    }
}

} // verus!
