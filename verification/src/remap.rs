//! The remap request info record the host hands to a remap hook, and the
//! status a remap entry point answers with.

use crate::host::HostRemapInfo;
use crate::url::Url;
use vstd::prelude::*;

verus! {

/// Wrapper over the remap request info record of one remap hook invocation:
/// the mapping's source and target URLs, the incoming request URL, and the
/// redirect flag the plugin may set.
#[derive(Debug)]
pub struct RemapRequestInfo {
    data: HostRemapInfo,
}

impl RemapRequestInfo {
    /// The record this wrapper holds.
    pub closed spec fn spec_data(self) -> HostRemapInfo {
        self.data
    }

    /// The record is well formed.
    pub open spec fn wf(self) -> bool {
        self.spec_data().wf()
    }

    /// Wraps a remap request info record.
    pub fn new(data: HostRemapInfo) -> (r: Self)
        ensures
            r.spec_data() == data,
    {
        RemapRequestInfo { data }
    }

    /// The URL the rule maps from.
    pub fn get_mapped_from<'b>(&'b self) -> (r: Url<'b, Self>)
        ensures
            r.spec_data() == self.spec_data().map_from_url,
    {
        Url::new(&self.data.map_from_url)
    }

    /// The URL the rule maps to.
    pub fn get_mapped_to<'b>(&'b self) -> (r: Url<'b, Self>)
        ensures
            r.spec_data() == self.spec_data().map_to_url,
    {
        Url::new(&self.data.map_to_url)
    }

    /// The incoming request URL.
    pub fn get_request_url<'b>(&'b self) -> (r: Url<'b, Self>)
        ensures
            r.spec_data() == self.spec_data().request_url,
    {
        Url::new(&self.data.request_url)
    }

    /// Sets the record's redirect flag: one for a redirect, zero otherwise.
    /// Everything else is left unchanged.
    pub fn set_redirect(&mut self, redirect: bool)
        ensures
            final(self).spec_data() == (HostRemapInfo {
                redirect: if redirect {
                    1i32
                } else {
                    0i32
                },
                ..old(self).spec_data()
            }),
    {
        self.data.redirect = if redirect {
            1
        } else {
            0
        };
    }

    /// The record's redirect flag, for the boundary to write back to the
    /// host's record.
    pub fn redirect(&self) -> (r: i32)
        ensures
            r == self.spec_data().redirect,
    {
        self.data.redirect
    }
}

/// The answer a per-request remap entry point gives the host.
#[derive(Clone, Copy, Debug, PartialEq, Eq, Structural)]
pub enum TSRemapStatus {
    NoRemap,
    DidRemap,
    NoRemapStop,
    DidRemapStop,
    RemapError,
}

} // verus!
