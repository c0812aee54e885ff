//! The phase-scoped transaction handle.
//!
//! A transaction handle is tagged with a hook-phase marker fixed at
//! construction. Each phase marker statically declares capabilities; request
//! and response accessors are only callable on a handle whose phase carries
//! the matching capability, so an illegal accessor call fails to compile
//! instead of failing at runtime. Resuming or aborting consumes the handle:
//! the transaction must not be used afterwards.

use crate::helpers::bytes_as_str;
use crate::helpers::utf8_failure_offset;
use crate::helpers::validate_utf8;
use crate::host::HostRequest;
use crate::host::HostResponse;
use crate::host::HostTxn;
use crate::request::GetsClientRequest;
use crate::request::GetsServerRequest;
use crate::request::Request;
use crate::response::GetsClientResponse;
use crate::response::GetsServerResponse;
use crate::response::Response;
use crate::{TS_EVENT_HTTP_CONTINUE, TS_EVENT_HTTP_ERROR};
use core::marker::PhantomData;
use vstd::prelude::*;
use vstd::utf8::decode_utf8;
use vstd::utf8::valid_utf8;

verus! {

/// Length of the fixed buffer the client-request-UUID getter fills.
pub const TS_CRUUID_STRING_LEN: usize = 58;

/// Failure kinds of transaction accessors.
#[derive(Clone, Copy, Debug, PartialEq, Eq, Structural)]
pub enum Error {
    /// The host call for the client request UUID reported failure.
    GetClientRequestUuidFailed,
    /// The UUID bytes before the first zero byte are not valid UTF-8;
    /// carries the byte offset at which decoding fails.
    InvalidString(usize),
}

/// Phase marker: the remap hook.
pub struct RemapHook;

/// Phase marker: the read-request-header hook.
pub struct ReadRequestHeaderHook;

/// Phase marker: the send-request-header hook.
pub struct SendRequestHeaderHook;

/// Capability: the phase may read the client request.
pub trait AllowsGetClientRequest {

}

/// Capability: the phase may read the server request.
pub trait AllowsGetServerRequest {

}

/// Capability: the phase may read the client response.
pub trait AllowsGetClientResponse {

}

/// Capability: the phase may read the server response.
pub trait AllowsGetServerResponse {

}

impl AllowsGetClientRequest for RemapHook {

}

impl AllowsGetClientRequest for ReadRequestHeaderHook {

}

impl AllowsGetClientRequest for SendRequestHeaderHook {

}

impl AllowsGetServerRequest for SendRequestHeaderHook {

}

/// Access to the raw transaction pointer a handle wraps, for the accessor
/// traits layered on top of it.
pub trait GetsInternalTransactionPtr {
    /// The wrapped raw transaction pointer, as a plain word.
    spec fn spec_txnp(&self) -> usize;

    /// The wrapped raw transaction pointer, as a plain word.
    fn get_internal_transaction_pointer(&self) -> (r: usize)
        ensures
            r == self.spec_txnp(),
    ;
}

/// Handle for one transaction during one hook invocation, tagged with the
/// phase marker `T` fixed at construction.
pub struct Transaction<'a, T: 'a> {
    txnp: usize,
    data: &'a HostTxn,
    _phase: PhantomData<&'a T>,
}

impl<'a, T: 'a> GetsInternalTransactionPtr for Transaction<'a, T> {
    closed spec fn spec_txnp(&self) -> usize {
        self.txnp
    }

    fn get_internal_transaction_pointer(&self) -> usize {
        self.txnp
    }
}

impl<'a, T: AllowsGetClientRequest + 'a> GetsClientRequest for Transaction<'a, T> {
    open spec fn spec_client_request(&self) -> Option<HostRequest> {
        self.spec_data().client_request
    }

    fn get_client_request<'b>(&'b self) -> Result<Request<'b, Self>, crate::Error> {
        match &self.data.client_request {
            Some(q) => Ok(Request::new(q)),
            None => Err(
                crate::Error::Request(crate::request::Error::GetClientRequestFailed),
            ),
        }
    }
}

impl<'a, T: AllowsGetServerRequest + 'a> GetsServerRequest for Transaction<'a, T> {
    open spec fn spec_server_request(&self) -> Option<HostRequest> {
        self.spec_data().server_request
    }

    fn get_server_request<'b>(&'b self) -> Result<Request<'b, Self>, crate::Error> {
        match &self.data.server_request {
            Some(q) => Ok(Request::new(q)),
            None => Err(
                crate::Error::Request(crate::request::Error::GetServerRequestFailed),
            ),
        }
    }
}

impl<'a, T: AllowsGetClientResponse + 'a> GetsClientResponse for Transaction<'a, T> {
    open spec fn spec_client_response(&self) -> Option<HostResponse> {
        self.spec_data().client_response
    }

    fn get_client_response<'b>(&'b self) -> Result<Response<'b, Self>, crate::Error> {
        match &self.data.client_response {
            Some(p) => Ok(Response::new(p)),
            None => Err(
                crate::Error::Response(crate::response::Error::GetClientResponseFailed),
            ),
        }
    }
}

impl<'a, T: AllowsGetServerResponse + 'a> GetsServerResponse for Transaction<'a, T> {
    open spec fn spec_server_response(&self) -> Option<HostResponse> {
        self.spec_data().server_response
    }

    fn get_server_response<'b>(&'b self) -> Result<Response<'b, Self>, crate::Error> {
        match &self.data.server_response {
            Some(p) => Ok(Response::new(p)),
            None => Err(
                crate::Error::Response(crate::response::Error::GetServerResponseFailed),
            ),
        }
    }
}

/// Index of the first zero byte in `s`, or its length when none occurs.
pub open spec fn first_nul(s: Seq<u8>) -> int
    decreases s.len(),
{
    if s.len() == 0 {
        0
    } else if s[0] == 0 {
        0
    } else {
        1 + first_nul(s.drop_first())
    }
}

/// `first_nul` is the position characterized by "no zero before it, a zero
/// at it unless the sequence ends".
pub proof fn lemma_first_nul(s: Seq<u8>, i: int)
    requires
        0 <= i <= s.len(),
        forall|j: int| 0 <= j < i ==> s[j] != 0,
        i < s.len() ==> s[i] == 0,
    ensures
        first_nul(s) == i,
    decreases i,
{
    if i == 0 {
    } else {
        assert(s[0] != 0);
        lemma_first_nul(s.drop_first(), i - 1);
    }
}

impl<'a, T: 'a> Transaction<'a, T> {
    /// The transaction image this handle reads.
    pub closed spec fn spec_data(self) -> HostTxn {
        *self.data
    }

    /// Wraps the raw transaction pointer and the transaction's image. The
    /// phase marker is chosen by the caller — the boundary that receives the
    /// hook invocation — and cannot change afterwards.
    pub fn new(txnp: usize, data: &'a HostTxn) -> (r: Self)
        ensures
            r.spec_txnp() == txnp,
            r.spec_data() == *data,
    {
        Transaction { txnp, data, _phase: PhantomData }
    }

    /// Continues normal processing of the transaction. Consumes the handle:
    /// the transaction must not be used after re-enabling it. Yields the
    /// pointer and event code to submit to the host's re-enable call.
    pub fn resume(self) -> (r: (usize, u32))
        ensures
            r.0 == self.spec_txnp(),
            r.1 == TS_EVENT_HTTP_CONTINUE,
    {
        (self.txnp, TS_EVENT_HTTP_CONTINUE)
    }

    /// Aborts the transaction. Consumes the handle: the transaction must not
    /// be used after re-enabling it. Yields the pointer and event code to
    /// submit to the host's re-enable call.
    pub fn abort(self) -> (r: (usize, u32))
        ensures
            r.0 == self.spec_txnp(),
            r.1 == TS_EVENT_HTTP_ERROR,
    {
        (self.txnp, TS_EVENT_HTTP_ERROR)
    }

    /// The client request UUID assigned to the transaction, obtainable from
    /// any phase: the host's fixed-length buffer trimmed at its first zero
    /// byte, then validated. Invalid UTF-8 in the trimmed region is a hard
    /// error, never a truncated success.
    pub fn client_request_uuid(&self) -> (r: Result<String, crate::Error>)
        ensures
            self.spec_data().uuid is None ==> ({
                &&& r matches Err(e)
                &&& e == crate::Error::Transaction(Error::GetClientRequestUuidFailed)
            }),
            self.spec_data().uuid matches Some(buf) ==> ({
                let trimmed = buf@.take(first_nul(buf@));
                &&& (valid_utf8(trimmed) ==> ({
                    &&& r matches Ok(s)
                    &&& s@ == decode_utf8(trimmed)
                }))
                &&& (!valid_utf8(trimmed) ==> ({
                    &&& r matches Err(e)
                    &&& e == crate::Error::Transaction(
                        Error::InvalidString(utf8_failure_offset(trimmed, 0) as usize),
                    )
                }))
            }),
    {
        let buf = match &self.data.uuid {
            Some(b) => b,
            None => {
                return Err(crate::Error::Transaction(Error::GetClientRequestUuidFailed));
            },
        };
        let n = buf.len();
        let mut k: usize = 0;
        while k < n && buf[k] != 0
            invariant
                k <= n,
                n == buf@.len(),
                forall|j: int| 0 <= j < k ==> buf@[j] != 0,
            decreases n - k,
        {
            k += 1;
        }
        proof {
            lemma_first_nul(buf@, k as int);
        }
        let mut trimmed: Vec<u8> = Vec::new();
        let mut t: usize = 0;
        while t < k
            invariant
                t <= k <= n,
                n == buf@.len(),
                trimmed@ =~= buf@.subrange(0, t as int),
            decreases k - t,
        {
            trimmed.push(buf[t]);
            t += 1;
        }
        proof {
            assert(trimmed@ =~= buf@.take(first_nul(buf@)));
        }
        match validate_utf8(trimmed.as_slice()) {
            Ok(()) => Ok(bytes_as_str(trimmed.as_slice()).to_owned()),
            Err(off) => Err(crate::Error::Transaction(Error::InvalidString(off))),
        }
    }
}

} // verus!
