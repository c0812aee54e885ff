//! Plain-value images of what the host's accessors hand over.
//!
//! The host exposes its data through raw pointers: a string accessor yields a
//! (pointer, length) pair, a structural accessor yields buffer and location
//! handles into host-owned memory. The types here record the bytes and the
//! outcome flags of those calls as plain values, so that the layers above can
//! be specified and verified over them. The unverified shell that talks to
//! the host fills these in at the boundary.

use vstd::prelude::*;

verus! {

/// Image of a (pointer, length) pair returned by a host string accessor.
///
/// `is_null` records whether the returned pointer was null, `len` the byte
/// length the host wrote to the output-length slot, and `bytes` the bytes at
/// the pointer. When the pointer is null or the length is negative nothing
/// can be read, so `bytes` carries meaning only in the well-formed case.
#[derive(Clone, Debug)]
pub struct HostStr {
    pub is_null: bool,
    pub len: i32,
    pub bytes: Vec<u8>,
}

impl HostStr {
    /// The bytes match the length the host reported: whenever the pointer is
    /// readable, `bytes` holds exactly the `len` bytes at the pointer.
    pub open spec fn wf(self) -> bool {
        !self.is_null && self.len >= 0 ==> self.bytes@.len() == self.len as int
    }

    /// A non-null result holding exactly the given bytes.
    pub fn from_bytes(bytes: Vec<u8>) -> (r: HostStr)
        requires
            bytes@.len() <= i32::MAX as int,
        ensures
            r.wf(),
            !r.is_null,
            r.len as int == bytes@.len(),
            r.bytes@ == bytes@,
    {
        let len = bytes.len() as i32;
        HostStr { is_null: false, len, bytes }
    }

    /// The result of an accessor that returned a null pointer.
    pub fn null() -> (r: HostStr)
        ensures
            r.wf(),
            r.is_null,
    {
        HostStr { is_null: true, len: 0, bytes: Vec::new() }
    }
}

/// Image of a URL object inside a host-owned buffer, one entry per field
/// getter the host offers.
#[derive(Clone, Debug)]
pub struct HostUrl {
    pub scheme: HostStr,
    pub host: HostStr,
    pub user: HostStr,
    pub password: HostStr,
    pub port: i32,
    pub path: HostStr,
    pub query: HostStr,
    pub params: HostStr,
    pub fragment: HostStr,
}

impl HostUrl {
    pub open spec fn wf(self) -> bool {
        &&& self.scheme.wf()
        &&& self.host.wf()
        &&& self.user.wf()
        &&& self.password.wf()
        &&& self.path.wf()
        &&& self.query.wf()
        &&& self.params.wf()
        &&& self.fragment.wf()
    }
}

/// Image of one MIME header field: its name, the value count the host
/// reports, and the per-index value lookups.
///
/// `value_count` is what the host's count call returns; `values` holds the
/// results of the per-index value lookups. An index at or past
/// `values.len()` models a lookup that returns a null pointer.
#[derive(Clone, Debug)]
pub struct HostField {
    pub name: HostStr,
    pub value_count: usize,
    pub values: Vec<HostStr>,
}

impl HostField {
    pub open spec fn wf(self) -> bool {
        &&& self.name.wf()
        &&& forall|i: int| 0 <= i < self.values@.len() ==> (#[trigger] self.values@[i]).wf()
    }
}

/// Image of a MIME header collection: the field count the host reports and
/// the per-index field lookups.
///
/// `field_count` is what the host's count call returns; an index at or past
/// `fields.len()` models a field lookup that returns a null location.
#[derive(Clone, Debug)]
pub struct HostMimeHdr {
    pub field_count: usize,
    pub fields: Vec<HostField>,
}

impl HostMimeHdr {
    pub open spec fn wf(self) -> bool {
        forall|i: int| 0 <= i < self.fields@.len() ==> (#[trigger] self.fields@[i]).wf()
    }
}

/// Image of a request object inside a host-owned buffer.
///
/// `url` is `None` when the host's URL getter reports failure.
#[derive(Clone, Debug)]
pub struct HostRequest {
    pub method: HostStr,
    pub host: HostStr,
    pub url: Option<HostUrl>,
    pub mime: HostMimeHdr,
}

impl HostRequest {
    pub open spec fn wf(self) -> bool {
        &&& self.method.wf()
        &&& self.host.wf()
        &&& (self.url matches Some(u) ==> u.wf())
        &&& self.mime.wf()
    }
}

/// Image of a response object inside a host-owned buffer.
#[derive(Clone, Debug)]
pub struct HostResponse {
    pub status: i32,
    pub reason: HostStr,
    pub mime: HostMimeHdr,
}

impl HostResponse {
    pub open spec fn wf(self) -> bool {
        &&& self.reason.wf()
        &&& self.mime.wf()
    }
}

/// Image of what the host exposes on one transaction.
///
/// A `None` entry models a getter whose host call reports failure; `uuid`
/// holds the fixed-length buffer the client-request-UUID getter fills.
#[derive(Clone, Debug)]
pub struct HostTxn {
    pub client_request: Option<HostRequest>,
    pub server_request: Option<HostRequest>,
    pub client_response: Option<HostResponse>,
    pub server_response: Option<HostResponse>,
    pub uuid: Option<Vec<u8>>,
}

impl HostTxn {
    pub open spec fn wf(self) -> bool {
        &&& (self.client_request matches Some(q) ==> q.wf())
        &&& (self.server_request matches Some(q) ==> q.wf())
        &&& (self.client_response matches Some(p) ==> p.wf())
        &&& (self.server_response matches Some(p) ==> p.wf())
    }
}

/// Image of the remap request info record the host hands to a remap hook.
#[derive(Clone, Debug)]
pub struct HostRemapInfo {
    pub map_from_url: HostUrl,
    pub map_to_url: HostUrl,
    pub request_url: HostUrl,
    pub redirect: i32,
}

impl HostRemapInfo {
    pub open spec fn wf(self) -> bool {
        &&& self.map_from_url.wf()
        &&& self.map_to_url.wf()
        &&& self.request_url.wf()
    }
}

} // verus!
