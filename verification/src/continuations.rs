//! The continuation bridge: host-recognized callback objects around a
//! heap-held handler.
//!
//! A continuation pairs a trampoline with a stored handler. The host invokes
//! the trampoline with an event code and an event-data word; the trampoline
//! runs the handler and maps its result to the host's two-valued return code.
//! A one-shot continuation releases its handler and destroys the host handle
//! on the first invocation, exactly once; a recurring continuation keeps both
//! until it is explicitly deregistered.

use crate::{TS_ERROR, TS_SUCCESS};
use vstd::prelude::*;

verus! {

/// A handler for a continuation the host invokes at most once. The handler is
/// consumed by its single run.
pub trait HandleOnce: Sized {
    fn handle_once(self, event: u32, edata: usize) -> Result<(), ()>;
}

/// A handler for a continuation the host may invoke arbitrarily many times
/// until it is deregistered.
pub trait HandleMany: Sized {
    fn handle(&mut self, event: u32, edata: usize) -> Result<(), ()>;
}

/// Maps a handler's result to the host's two-valued return code.
pub fn ts_code_of(res: Result<(), ()>) -> (r: i32)
    ensures
        r == TS_SUCCESS <==> res is Ok,
        r == TS_SUCCESS || r == TS_ERROR,
{
    match res {
        Ok(()) => TS_SUCCESS,
        Err(()) => TS_ERROR,
    }
}

/// A continuation whose handler runs at most once.
///
/// `armed` says the handler storage is still held and the host handle still
/// exists; both are given up by the first trampoline invocation.
pub struct OneShotContinuation<H> {
    handler: Option<H>,
    handle_destroyed: bool,
}

impl<H> OneShotContinuation<H> {
    /// The handler storage is still held.
    pub closed spec fn holds_handler(self) -> bool {
        self.handler is Some
    }

    /// The host continuation handle has been destroyed.
    pub closed spec fn handle_destroyed(self) -> bool {
        self.handle_destroyed
    }

    /// Ready for its single invocation.
    pub open spec fn armed(self) -> bool {
        self.holds_handler() && !self.handle_destroyed()
    }
}

/// Creates a continuation whose handler is to be called once; the first
/// invocation releases its storage.
pub fn continuation_callback<H: HandleOnce>(cb: H) -> (c: OneShotContinuation<H>)
    ensures
        c.armed(),
{
    OneShotContinuation { handler: Some(cb), handle_destroyed: false }
}

/// The trampoline of a one-shot continuation, run when the host invokes it.
///
/// The first invocation consumes the handler, runs it, destroys the host
/// handle whatever the handler returned, and maps the handler's result to the
/// host's return code. Any further invocation finds no handler, changes
/// nothing, and releases nothing a second time.
pub fn continuation_raw_handler_once<H: HandleOnce>(
    cont: &mut OneShotContinuation<H>,
    event: u32,
    edata: usize,
) -> (r: i32)
    ensures
        old(cont).armed() ==> !final(cont).holds_handler() && final(cont).handle_destroyed(),
        !old(cont).armed() ==> *final(cont) == *old(cont),
        r == TS_SUCCESS || r == TS_ERROR,
{
    if cont.handle_destroyed {
        return TS_ERROR;
    }
    match cont.handler.take() {
        Some(cb) => {
            let res = cb.handle_once(event, edata);
            cont.handle_destroyed = true;
            ts_code_of(res)
        },
        None => TS_ERROR,
    }
}

/// A continuation whose handler may run many times; the handler and the host
/// handle stay alive until `continuation_handler_free` deregisters them.
pub struct RecurringContinuation<H> {
    handler: H,
}

/// Creates a continuation whose handler is to be called often. Deregister it
/// with `continuation_handler_free` when done, or the handler storage leaks.
pub fn continuation_handler<H: HandleMany>(cb: H) -> RecurringContinuation<H> {
    RecurringContinuation { handler: cb }
}

/// The trampoline of a recurring continuation: runs the handler in place and
/// maps its result to the host's return code. The handler and the host handle
/// stay alive.
pub fn continuation_raw_handler<H: HandleMany>(
    cont: &mut RecurringContinuation<H>,
    event: u32,
    edata: usize,
) -> (r: i32)
    ensures
        r == TS_SUCCESS || r == TS_ERROR,
{
    let res = cont.handler.handle(event, edata);
    ts_code_of(res)
}

/// Deregisters a recurring continuation: reclaims the handler storage and
/// gives it back, after which the host handle is destroyed.
pub fn continuation_handler_free<H: HandleMany>(cont: RecurringContinuation<H>) -> H {
    cont.handler
}

} // verus!
