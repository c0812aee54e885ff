//! Zero-copy view of a URL object living inside a host-owned buffer.

use crate::helpers::checked_raw_str;
use crate::helpers::spec_checked_str;
use crate::helpers::RawStrError;
use crate::host::HostUrl;
use core::marker::PhantomData;
use vstd::prelude::*;

verus! {

/// View of a URL inside a host-owned buffer, borrowing the buffer of its
/// parent (a transaction, request, or remap record) so it cannot outlive it.
pub struct Url<'a, T: 'a> {
    data: &'a HostUrl,
    _parent: PhantomData<&'a T>,
}

impl<'a, T: 'a> Url<'a, T> {
    /// The URL image this view reads.
    pub closed spec fn spec_data(self) -> HostUrl {
        *self.data
    }

    /// The URL image is well formed.
    pub open spec fn wf(self) -> bool {
        self.spec_data().wf()
    }

    /// Wraps a URL image.
    pub fn new(data: &'a HostUrl) -> (r: Self)
        ensures
            r.spec_data() == *data,
    {
        Url { data, _parent: PhantomData }
    }

    /// The scheme, through checked string extraction.
    pub fn get_scheme(&self) -> (r: Result<&'a str, crate::Error>)
        requires
            self.wf(),
        ensures
            r matches Ok(s) ==> spec_checked_str(self.spec_data().scheme) == Ok::<
                Seq<char>,
                RawStrError,
            >(s@),
            r matches Err(e) ==> ({
                &&& e matches crate::Error::InvalidRawString(re)
                &&& spec_checked_str(self.spec_data().scheme) == Err::<Seq<char>, RawStrError>(re)
            }),
    {
        match checked_raw_str(&self.data.scheme) {
            Ok(s) => Ok(s),
            Err(e) => Err(crate::Error::InvalidRawString(e)),
        }
    }

    /// The host part, through checked string extraction.
    pub fn get_host(&self) -> (r: Result<&'a str, crate::Error>)
        requires
            self.wf(),
        ensures
            r matches Ok(s) ==> spec_checked_str(self.spec_data().host) == Ok::<
                Seq<char>,
                RawStrError,
            >(s@),
            r matches Err(e) ==> ({
                &&& e matches crate::Error::InvalidRawString(re)
                &&& spec_checked_str(self.spec_data().host) == Err::<Seq<char>, RawStrError>(re)
            }),
    {
        match checked_raw_str(&self.data.host) {
            Ok(s) => Ok(s),
            Err(e) => Err(crate::Error::InvalidRawString(e)),
        }
    }

    /// The user part, through checked string extraction.
    pub fn get_user(&self) -> (r: Result<&'a str, crate::Error>)
        requires
            self.wf(),
        ensures
            r matches Ok(s) ==> spec_checked_str(self.spec_data().user) == Ok::<
                Seq<char>,
                RawStrError,
            >(s@),
            r matches Err(e) ==> ({
                &&& e matches crate::Error::InvalidRawString(re)
                &&& spec_checked_str(self.spec_data().user) == Err::<Seq<char>, RawStrError>(re)
            }),
    {
        match checked_raw_str(&self.data.user) {
            Ok(s) => Ok(s),
            Err(e) => Err(crate::Error::InvalidRawString(e)),
        }
    }

    /// The password part, through checked string extraction.
    pub fn get_password(&self) -> (r: Result<&'a str, crate::Error>)
        requires
            self.wf(),
        ensures
            r matches Ok(s) ==> spec_checked_str(self.spec_data().password) == Ok::<
                Seq<char>,
                RawStrError,
            >(s@),
            r matches Err(e) ==> ({
                &&& e matches crate::Error::InvalidRawString(re)
                &&& spec_checked_str(self.spec_data().password) == Err::<Seq<char>, RawStrError>(
                    re,
                )
            }),
    {
        match checked_raw_str(&self.data.password) {
            Ok(s) => Ok(s),
            Err(e) => Err(crate::Error::InvalidRawString(e)),
        }
    }

    /// The port as the host reports it, unvalidated: any integer, including
    /// negative or sentinel values, passes through unchanged.
    pub fn get_port(&self) -> (r: i32)
        ensures
            r == self.spec_data().port,
    {
        self.data.port
    }

    /// The path, through checked string extraction.
    pub fn get_path(&self) -> (r: Result<&'a str, crate::Error>)
        requires
            self.wf(),
        ensures
            r matches Ok(s) ==> spec_checked_str(self.spec_data().path) == Ok::<
                Seq<char>,
                RawStrError,
            >(s@),
            r matches Err(e) ==> ({
                &&& e matches crate::Error::InvalidRawString(re)
                &&& spec_checked_str(self.spec_data().path) == Err::<Seq<char>, RawStrError>(re)
            }),
    {
        match checked_raw_str(&self.data.path) {
            Ok(s) => Ok(s),
            Err(e) => Err(crate::Error::InvalidRawString(e)),
        }
    }

    /// The query string, through checked string extraction.
    pub fn get_query(&self) -> (r: Result<&'a str, crate::Error>)
        requires
            self.wf(),
        ensures
            r matches Ok(s) ==> spec_checked_str(self.spec_data().query) == Ok::<
                Seq<char>,
                RawStrError,
            >(s@),
            r matches Err(e) ==> ({
                &&& e matches crate::Error::InvalidRawString(re)
                &&& spec_checked_str(self.spec_data().query) == Err::<Seq<char>, RawStrError>(re)
            }),
    {
        match checked_raw_str(&self.data.query) {
            Ok(s) => Ok(s),
            Err(e) => Err(crate::Error::InvalidRawString(e)),
        }
    }

    /// The parameter string, through checked string extraction.
    pub fn get_params(&self) -> (r: Result<&'a str, crate::Error>)
        requires
            self.wf(),
        ensures
            r matches Ok(s) ==> spec_checked_str(self.spec_data().params) == Ok::<
                Seq<char>,
                RawStrError,
            >(s@),
            r matches Err(e) ==> ({
                &&& e matches crate::Error::InvalidRawString(re)
                &&& spec_checked_str(self.spec_data().params) == Err::<Seq<char>, RawStrError>(re)
            }),
    {
        match checked_raw_str(&self.data.params) {
            Ok(s) => Ok(s),
            Err(e) => Err(crate::Error::InvalidRawString(e)),
        }
    }

    /// The fragment, through checked string extraction.
    pub fn get_fragment(&self) -> (r: Result<&'a str, crate::Error>)
        requires
            self.wf(),
        ensures
            r matches Ok(s) ==> spec_checked_str(self.spec_data().fragment) == Ok::<
                Seq<char>,
                RawStrError,
            >(s@),
            r matches Err(e) ==> ({
                &&& e matches crate::Error::InvalidRawString(re)
                &&& spec_checked_str(self.spec_data().fragment) == Err::<Seq<char>, RawStrError>(
                    re,
                )
            }),
    {
        match checked_raw_str(&self.data.fragment) {
            Ok(s) => Ok(s),
            Err(e) => Err(crate::Error::InvalidRawString(e)),
        }
    }
}

} // verus!
