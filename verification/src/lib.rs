//! A safety layer over a callback-driven plugin interface of a network proxy
//! host.
//!
//! The host drives plugin code through hooks and completes asynchronous
//! operations by invoking continuations with an event code. This crate models
//! what the host hands over as plain values (`host`), extracts validated text
//! from raw (pointer, length) pairs (`helpers`), bridges continuations and the
//! async cache read (`continuations`, `cache`), and offers phase-scoped,
//! zero-copy views of transactions, requests, responses, URLs and header
//! collections. The unverified shell that speaks the host's native interface
//! feeds these types at the boundary.

use vstd::prelude::*;

pub mod cache;
pub mod continuations;
pub mod headers;
pub mod helpers;
pub mod host;
pub mod remap;
pub mod request;
pub mod response;
pub mod status;
pub mod transaction;
pub mod url;

use crate::helpers::bytes_as_str;
use crate::helpers::validate_utf8;
use vstd::string::StringSliceAdditionalSpecFns;
use vstd::utf8::decode_utf8;
use vstd::utf8::valid_utf8;

verus! {

/// Return code the host uses to report success of a call.
pub const TS_SUCCESS: i32 = 0;

/// Return code the host uses to report failure of a call.
pub const TS_ERROR: i32 = -1;

/// Event code delivered when a cache open for read succeeded; the event data
/// is the connection handle.
pub const TS_EVENT_CACHE_OPEN_READ: u32 = 1102;

/// Event code delivered when a cache open for read failed; the event data is
/// the numeric cause.
pub const TS_EVENT_CACHE_OPEN_READ_FAILED: u32 = 1103;

/// Event code that re-enables normal processing of a transaction.
pub const TS_EVENT_HTTP_CONTINUE: u32 = 60000;

/// Event code that signals an error on a transaction.
pub const TS_EVENT_HTTP_ERROR: u32 = 60001;

/// Failure kinds surfaced by the accessor layers, one arm per module of
/// origin.
#[derive(Clone, Copy, Debug, PartialEq, Eq, Structural)]
pub enum Error {
    Request(crate::request::Error),
    Response(crate::response::Error),
    Transaction(crate::transaction::Error),
    InvalidRawString(crate::helpers::RawStrError),
}

impl From<crate::request::Error> for Error {
    fn from(e: crate::request::Error) -> Self {
        Error::Request(e)
    }
}

impl vstd::std_specs::convert::FromSpecImpl<crate::request::Error> for Error {
    open spec fn obeys_from_spec() -> bool {
        true
    }

    open spec fn from_spec(e: crate::request::Error) -> Error {
        Error::Request(e)
    }
}

impl From<crate::response::Error> for Error {
    fn from(e: crate::response::Error) -> Self {
        Error::Response(e)
    }
}

impl vstd::std_specs::convert::FromSpecImpl<crate::response::Error> for Error {
    open spec fn obeys_from_spec() -> bool {
        true
    }

    open spec fn from_spec(e: crate::response::Error) -> Error {
        Error::Response(e)
    }
}

impl From<crate::transaction::Error> for Error {
    fn from(e: crate::transaction::Error) -> Self {
        Error::Transaction(e)
    }
}

impl vstd::std_specs::convert::FromSpecImpl<crate::transaction::Error> for Error {
    open spec fn obeys_from_spec() -> bool {
        true
    }

    open spec fn from_spec(e: crate::transaction::Error) -> Error {
        Error::Transaction(e)
    }
}

impl From<crate::helpers::RawStrError> for Error {
    fn from(e: crate::helpers::RawStrError) -> Self {
        Error::InvalidRawString(e)
    }
}

impl vstd::std_specs::convert::FromSpecImpl<crate::helpers::RawStrError> for Error {
    open spec fn obeys_from_spec() -> bool {
        true
    }

    open spec fn from_spec(e: crate::helpers::RawStrError) -> Error {
        Error::InvalidRawString(e)
    }
}

/// Converts the host's two-valued return code into a `Result`.
pub fn ts_result_convert(ret: i32) -> (r: Result<(), ()>)
    ensures
        r is Ok <==> ret == TS_SUCCESS,
{
    if ret == TS_SUCCESS {
        Ok(())
    } else {
        Err(())
    }
}

/// The NUL-terminated byte image the logging helpers hand to the host: the
/// text's bytes with a terminator, or the empty C string when the text holds
/// an interior NUL — logging never fails its caller.
pub fn log_c_string(message: &str) -> (r: Vec<u8>)
    ensures
        !message.spec_bytes().contains(0u8) ==> r@ =~= message.spec_bytes() + seq![0u8],
        message.spec_bytes().contains(0u8) ==> r@ =~= seq![0u8],
{
    let bytes = message.as_bytes();
    let n = bytes.len();
    let mut has_nul = false;
    let mut i: usize = 0;
    while i < n
        invariant
            i <= n,
            n == bytes@.len(),
            has_nul <==> exists|j: int| 0 <= j < i && bytes@[j] == 0u8,
        decreases n - i,
    {
        if bytes[i] == 0 {
            has_nul = true;
        }
        i += 1;
    }
    let mut out: Vec<u8> = Vec::new();
    if has_nul {
        out.push(0);
        return out;
    }
    let mut k: usize = 0;
    while k < n
        invariant
            k <= n,
            n == bytes@.len(),
            out@ =~= bytes@.subrange(0, k as int),
        decreases n - k,
    {
        out.push(bytes[k]);
        k += 1;
    }
    out.push(0);
    proof {
        assert(bytes@.subrange(0, n as int) =~= bytes@);
    }
    out
}

/// The directory string the configuration-directory getter surfaces: the
/// bytes at the returned pointer as text, or empty when the pointer was null
/// or the bytes are not valid UTF-8.
pub fn ts_config_dir_get(raw: Option<Vec<u8>>) -> (r: String)
    ensures
        raw is None ==> r@ =~= Seq::<char>::empty(),
        raw matches Some(b) ==> r@ =~= (if valid_utf8(b@) {
            decode_utf8(b@)
        } else {
            Seq::<char>::empty()
        }),
{
    match raw {
        None => String::new(),
        Some(b) => {
            match validate_utf8(b.as_slice()) {
                Ok(()) => bytes_as_str(b.as_slice()).to_owned(),
                Err(_) => String::new(),
            }
        },
    }
}

} // verus!
