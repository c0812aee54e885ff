//! Zero-copy view of a response living inside a host-owned buffer, and the
//! capability traits through which phase-scoped handles expose responses.

use crate::headers::Headers;
use crate::helpers::checked_raw_str;
use crate::helpers::spec_checked_str;
use crate::helpers::RawStrError;
use crate::host::HostResponse;
use crate::status::Status;
use core::marker::PhantomData;
use vstd::prelude::*;

verus! {

/// Failure kinds of response accessors: the host call that backs each one
/// reported failure.
#[derive(Clone, Copy, Debug, PartialEq, Eq, Structural)]
pub enum Error {
    GetClientResponseFailed,
    GetServerResponseFailed,
}

/// View of a response inside a host-owned buffer: the client, server, or
/// cached response of a transaction. Borrows its parent's buffer so it
/// cannot outlive it.
pub struct Response<'a, T: 'a> {
    data: &'a HostResponse,
    _parent: PhantomData<&'a T>,
}

impl<'a, T: 'a> Response<'a, T> {
    /// The response image this view reads.
    pub closed spec fn spec_data(self) -> HostResponse {
        *self.data
    }

    /// The response image is well formed.
    pub open spec fn wf(self) -> bool {
        self.spec_data().wf()
    }

    /// Wraps a response image.
    pub fn new(data: &'a HostResponse) -> (r: Self)
        ensures
            r.spec_data() == *data,
    {
        Response { data, _parent: PhantomData }
    }

    /// The status code, or `None` when the host reports its "no status"
    /// sentinel or a value outside the standard range.
    pub fn get_status(&self) -> (r: Option<Status>)
        ensures
            100 <= self.spec_data().status <= 599 ==> ({
                &&& r matches Some(st)
                &&& st.spec_code() == self.spec_data().status
            }),
            !(100 <= self.spec_data().status <= 599) ==> r is None,
    {
        let raw_status = self.data.status;
        if raw_status == 0 {
            return None;
        }
        Status::try_from_code(raw_status)
    }

    /// The reason phrase, through checked string extraction.
    pub fn get_reason(&self) -> (r: Result<&'a str, crate::Error>)
        requires
            self.wf(),
        ensures
            r matches Ok(s) ==> spec_checked_str(self.spec_data().reason) == Ok::<
                Seq<char>,
                RawStrError,
            >(s@),
            r matches Err(e) ==> ({
                &&& e matches crate::Error::InvalidRawString(re)
                &&& spec_checked_str(self.spec_data().reason) == Err::<Seq<char>, RawStrError>(re)
            }),
    {
        match checked_raw_str(&self.data.reason) {
            Ok(s) => Ok(s),
            Err(e) => Err(crate::Error::InvalidRawString(e)),
        }
    }

    /// The MIME header collection of this response.
    pub fn get_headers(&self) -> (r: Headers<'a, Self>)
        ensures
            r.spec_mime() == self.spec_data().mime,
    {
        Headers::new(&self.data.mime)
    }
}

/// Read access to the server response, available on handles whose phase
/// permits it.
pub trait GetsServerResponse where Self: crate::transaction::GetsInternalTransactionPtr + Sized {
    /// The server response image the backing host call delivers, or `None`
    /// when that call reports failure.
    spec fn spec_server_response(&self) -> Option<HostResponse>;

    /// The server response view, or the typed failure when the host call
    /// reports failure.
    fn get_server_response<'b>(&'b self) -> (r: Result<Response<'b, Self>, crate::Error>)
        ensures
            self.spec_server_response() matches Some(p) ==> ({
                &&& r matches Ok(resp)
                &&& resp.spec_data() == p
            }),
            self.spec_server_response() is None ==> ({
                &&& r matches Err(e)
                &&& e == crate::Error::Response(Error::GetServerResponseFailed)
            }),
    ;
}

/// Read access to the client response, available on handles whose phase
/// permits it.
pub trait GetsClientResponse where Self: crate::transaction::GetsInternalTransactionPtr + Sized {
    /// The client response image the backing host call delivers, or `None`
    /// when that call reports failure.
    spec fn spec_client_response(&self) -> Option<HostResponse>;

    /// The client response view, or the typed failure when the host call
    /// reports failure.
    fn get_client_response<'b>(&'b self) -> (r: Result<Response<'b, Self>, crate::Error>)
        ensures
            self.spec_client_response() matches Some(p) ==> ({
                &&& r matches Ok(resp)
                &&& resp.spec_data() == p
            }),
            self.spec_client_response() is None ==> ({
                &&& r matches Err(e)
                &&& e == crate::Error::Response(Error::GetClientResponseFailed)
            }),
    ;
}

} // verus!
