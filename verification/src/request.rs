//! Zero-copy view of a request living inside a host-owned buffer, and the
//! capability traits through which phase-scoped handles expose requests.

use crate::headers::Headers;
use crate::helpers::checked_raw_str;
use crate::helpers::spec_checked_str;
use crate::helpers::RawStrError;
use crate::host::HostRequest;
use crate::url::Url;
use core::marker::PhantomData;
use vstd::prelude::*;

verus! {

/// Failure kinds of request accessors: the host call that backs each one
/// reported failure.
#[derive(Clone, Copy, Debug, PartialEq, Eq, Structural)]
pub enum Error {
    GetClientRequestFailed,
    GetServerRequestFailed,
    GetUrlFailed,
}

/// View of a request inside a host-owned buffer: the client or server
/// request of a transaction. Borrows its parent's buffer so it cannot
/// outlive it.
pub struct Request<'a, T: 'a> {
    data: &'a HostRequest,
    _parent: PhantomData<&'a T>,
}

impl<'a, T: 'a> Request<'a, T> {
    /// The request image this view reads.
    pub closed spec fn spec_data(self) -> HostRequest {
        *self.data
    }

    /// The request image is well formed.
    pub open spec fn wf(self) -> bool {
        self.spec_data().wf()
    }

    /// Wraps a request image.
    pub fn new(data: &'a HostRequest) -> (r: Self)
        ensures
            r.spec_data() == *data,
    {
        Request { data, _parent: PhantomData }
    }

    /// The request method, through checked string extraction.
    pub fn get_method(&self) -> (r: Result<&'a str, crate::Error>)
        requires
            self.wf(),
        ensures
            r matches Ok(s) ==> spec_checked_str(self.spec_data().method) == Ok::<
                Seq<char>,
                RawStrError,
            >(s@),
            r matches Err(e) ==> ({
                &&& e matches crate::Error::InvalidRawString(re)
                &&& spec_checked_str(self.spec_data().method) == Err::<Seq<char>, RawStrError>(re)
            }),
    {
        match checked_raw_str(&self.data.method) {
            Ok(s) => Ok(s),
            Err(e) => Err(crate::Error::InvalidRawString(e)),
        }
    }

    /// The URL view of this request, or the typed failure when the host's
    /// URL getter reported failure.
    pub fn get_url(&self) -> (r: Result<Url<'a, T>, crate::Error>)
        ensures
            self.spec_data().url matches Some(u) ==> ({
                &&& r matches Ok(v)
                &&& v.spec_data() == u
            }),
            self.spec_data().url is None ==> r == Err::<Url<'a, T>, crate::Error>(
                crate::Error::Request(Error::GetUrlFailed),
            ),
    {
        match &self.data.url {
            Some(u) => Ok(Url::new(u)),
            None => Err(crate::Error::Request(Error::GetUrlFailed)),
        }
    }

    /// The host header value, through checked string extraction.
    pub fn get_host(&self) -> (r: Result<&'a str, crate::Error>)
        requires
            self.wf(),
        ensures
            r matches Ok(s) ==> spec_checked_str(self.spec_data().host) == Ok::<
                Seq<char>,
                RawStrError,
            >(s@),
            r matches Err(e) ==> ({
                &&& e matches crate::Error::InvalidRawString(re)
                &&& spec_checked_str(self.spec_data().host) == Err::<Seq<char>, RawStrError>(re)
            }),
    {
        match checked_raw_str(&self.data.host) {
            Ok(s) => Ok(s),
            Err(e) => Err(crate::Error::InvalidRawString(e)),
        }
    }

    /// The MIME header collection of this request.
    pub fn get_headers(&self) -> (r: Headers<'a, Self>)
        ensures
            r.spec_mime() == self.spec_data().mime,
    {
        Headers::new(&self.data.mime)
    }
}

/// Read access to the client request, available on handles whose phase
/// permits it.
pub trait GetsClientRequest where Self: crate::transaction::GetsInternalTransactionPtr + Sized {
    /// The client request image the backing host call delivers, or `None`
    /// when that call reports failure.
    spec fn spec_client_request(&self) -> Option<HostRequest>;

    /// The client request view, or the typed failure when the host call
    /// reports failure.
    fn get_client_request<'b>(&'b self) -> (r: Result<Request<'b, Self>, crate::Error>)
        ensures
            self.spec_client_request() matches Some(q) ==> ({
                &&& r matches Ok(req)
                &&& req.spec_data() == q
            }),
            self.spec_client_request() is None ==> ({
                &&& r matches Err(e)
                &&& e == crate::Error::Request(Error::GetClientRequestFailed)
            }),
    ;
}

/// Read access to the server request, available on handles whose phase
/// permits it.
pub trait GetsServerRequest where Self: crate::transaction::GetsInternalTransactionPtr + Sized {
    /// The server request image the backing host call delivers, or `None`
    /// when that call reports failure.
    spec fn spec_server_request(&self) -> Option<HostRequest>;

    /// The server request view, or the typed failure when the host call
    /// reports failure.
    fn get_server_request<'b>(&'b self) -> (r: Result<Request<'b, Self>, crate::Error>)
        ensures
            self.spec_server_request() matches Some(q) ==> ({
                &&& r matches Ok(req)
                &&& req.spec_data() == q
            }),
            self.spec_server_request() is None ==> ({
                &&& r matches Err(e)
                &&& e == crate::Error::Request(Error::GetServerRequestFailed)
            }),
    ;
}

} // verus!
