//! The async cache-read bridge and the cache-object handle.
//!
//! The host's cache-open-for-read operation completes by invoking a
//! continuation with an event code: success delivers a connection handle,
//! failure a numeric cause. The bridge decodes that event, forwards the
//! outcome into a single-producer channel, and the suspended caller maps what
//! the channel yields (or its closing) to the final result. The cache object
//! owns the delivered connection and, once populated, an I/O buffer, and
//! plans their release in a fixed order.

use crate::continuations::HandleOnce;
use crate::{TS_EVENT_CACHE_OPEN_READ, TS_EVENT_CACHE_OPEN_READ_FAILED};
use vstd::prelude::*;

verus! {

/// Failure kinds of the async cache-read bridge.
#[derive(Clone, Copy, Debug, PartialEq, Eq, Structural)]
pub enum Error {
    /// The host reported the cache open failed; carries the host's numeric
    /// cause.
    OpenFailed(usize),
    /// The continuation was invoked with an event code the bridge does not
    /// expect.
    UnexpectedEvent,
    /// The completion channel closed without a value: the continuation was
    /// dropped and never invoked.
    ChannelClosed,
}

/// One step of the release plan for a cache object's resources.
#[derive(Clone, Copy, Debug, PartialEq, Eq, Structural)]
pub enum ReleaseAction {
    /// Destroy the I/O buffer with this handle.
    DestroyIoBuffer(usize),
    /// Close the connection with this handle.
    CloseConnection(usize),
}

/// An owned handle to an open cache entry: its connection and, once a
/// transfer begins, its I/O buffer.
#[derive(Debug, PartialEq, Eq)]
pub struct CacheObject {
    vconn: usize,
    buffer: Option<usize>,
}

impl CacheObject {
    /// The owned connection handle.
    pub closed spec fn spec_vconn(self) -> usize {
        self.vconn
    }

    /// The owned I/O buffer handle, if one has been attached.
    pub closed spec fn spec_buffer(self) -> Option<usize> {
        self.buffer
    }

    /// Wraps the connection handle a successful cache open delivered; no I/O
    /// buffer is attached yet.
    pub fn new(vconn: usize) -> (r: Self)
        ensures
            r.spec_vconn() == vconn,
            r.spec_buffer() is None,
    {
        CacheObject { vconn, buffer: None }
    }

    /// The owned connection handle.
    pub fn vconn(&self) -> (r: usize)
        ensures
            r == self.spec_vconn(),
    {
        self.vconn
    }

    /// Attaches the I/O buffer a transfer allocated, replacing any earlier
    /// one.
    pub fn set_buffer(&mut self, bufp: usize)
        ensures
            final(self).spec_vconn() == old(self).spec_vconn(),
            final(self).spec_buffer() == Some(bufp),
    {
        self.buffer = Some(bufp);
    }

    /// Consumes the object and plans its release: destroy the I/O buffer
    /// first, if one is attached, then close the connection — in that order,
    /// unconditionally, each exactly once.
    pub fn teardown_actions(self) -> (r: Vec<ReleaseAction>)
        ensures
            self.spec_buffer() matches Some(b) ==> r@ =~= seq![
                ReleaseAction::DestroyIoBuffer(b),
                ReleaseAction::CloseConnection(self.spec_vconn()),
            ],
            self.spec_buffer() is None ==> r@ =~= seq![
                ReleaseAction::CloseConnection(self.spec_vconn()),
            ],
    {
        let mut actions: Vec<ReleaseAction> = Vec::new();
        match self.buffer {
            Some(bufp) => actions.push(ReleaseAction::DestroyIoBuffer(bufp)),
            None => (),
        }
        actions.push(ReleaseAction::CloseConnection(self.vconn));
        actions
    }
}

/// Decodes the event a cache-read continuation was invoked with: the success
/// event wraps the delivered connection handle in a cache object, the failure
/// event carries the host's numeric cause, and any other event is a protocol
/// error.
pub fn decode_cache_event(event: u32, edata: usize) -> (r: Result<CacheObject, Error>)
    ensures
        event == TS_EVENT_CACHE_OPEN_READ ==> ({
            &&& r matches Ok(c)
            &&& c.spec_vconn() == edata
            &&& c.spec_buffer() is None
        }),
        event == TS_EVENT_CACHE_OPEN_READ_FAILED ==> r == Err::<CacheObject, Error>(
            Error::OpenFailed(edata),
        ),
        event != TS_EVENT_CACHE_OPEN_READ && event != TS_EVENT_CACHE_OPEN_READ_FAILED ==> r
            == Err::<CacheObject, Error>(Error::UnexpectedEvent),
{
    if event == TS_EVENT_CACHE_OPEN_READ {
        Ok(CacheObject::new(edata))
    } else if event == TS_EVENT_CACHE_OPEN_READ_FAILED {
        Err(Error::OpenFailed(edata))
    } else {
        Err(Error::UnexpectedEvent)
    }
}

/// Maps what the completion channel yielded to the bridge's result: a
/// delivered outcome is passed through unchanged, and a channel that closed
/// without a value is the channel-closed failure.
pub fn cache_read_outcome(received: Option<Result<CacheObject, Error>>) -> (r: Result<
    CacheObject,
    Error,
>)
    ensures
        received matches Some(x) ==> r == x,
        received is None ==> r == Err::<CacheObject, Error>(Error::ChannelClosed),
{
    match received {
        Some(x) => x,
        None => Err(Error::ChannelClosed),
    }
}

#[verifier::external_type_specification]
#[verifier::external_body]
#[verifier::reject_recursive_types(T)]
pub struct ExOneshotSender<T>(tokio::sync::oneshot::Sender<T>);

/// Relies on tokio's `oneshot::Sender::send`: it either delivers the value to
/// the receiver or, when the receiver is already dropped, gives the value
/// back unchanged.
pub assume_specification<T>[ tokio::sync::oneshot::Sender::<T>::send ](
    s: tokio::sync::oneshot::Sender<T>,
    t: T,
) -> (r: Result<(), T>)
    ensures
        r matches Err(v) ==> v == t,
;

/// The one-shot handler of the cache-read bridge: decodes the delivered
/// event and forwards the outcome into the completion channel.
pub struct CacheReadHandler {
    sender: tokio::sync::oneshot::Sender<Result<CacheObject, Error>>,
}

impl CacheReadHandler {
    /// Wraps the sending half of the completion channel.
    pub fn new(sender: tokio::sync::oneshot::Sender<Result<CacheObject, Error>>) -> Self {
        CacheReadHandler { sender }
    }
}

impl HandleOnce for CacheReadHandler {
    /// Decodes the event and sends the outcome; fails only when the receiving
    /// half is already gone.
    fn handle_once(self, event: u32, edata: usize) -> Result<(), ()> {
        let outcome = decode_cache_event(event, edata);
        match self.sender.send(outcome) {
            Ok(()) => Ok(()),
            Err(_) => Err(()),
        }
    }
}

} // verus!
