//! Zero-copy views of the MIME header collection of a request or response.
//!
//! A collection is an ordered sequence of fields; a field is a named, ordered
//! sequence of values; duplicate names are permitted and the host's order is
//! preserved. Field iteration is count-bounded and index-ascending, ending
//! early where a lookup returns null; value iteration is count-bounded and
//! silently skips any index whose string fails validation.

use crate::helpers::checked_raw_str;
use crate::helpers::spec_checked_str;
use crate::helpers::RawStrError;
use crate::host::HostField;
use crate::host::HostMimeHdr;
use core::marker::PhantomData;
use vstd::prelude::*;
use vstd::string::StringSliceAdditionalSpecFns;

verus! {

/// Number of fields the field iteration yields: the count the host reports,
/// cut short where a per-index lookup returns a null location.
pub open spec fn spec_field_yield_count(m: HostMimeHdr) -> int {
    if m.field_count as int <= m.fields@.len() {
        m.field_count as int
    } else {
        m.fields@.len() as int
    }
}

/// The value strings of `f` that validate, in index order, over the reported
/// index range from `i` up: indices whose extraction fails are skipped.
pub open spec fn spec_valid_values_from(f: HostField, i: int) -> Seq<Seq<char>>
    decreases f.value_count - i
        when 0 <= i
{
    if i >= f.value_count as int {
        Seq::empty()
    } else {
        let rest = spec_valid_values_from(f, i + 1);
        if i < f.values@.len() && spec_checked_str(f.values@[i]) is Ok {
            seq![spec_checked_str(f.values@[i])->Ok_0] + rest
        } else {
            rest
        }
    }
}

/// The validatable subset of a field's values, in original order.
pub open spec fn spec_valid_values(f: HostField) -> Seq<Seq<char>> {
    spec_valid_values_from(f, 0)
}

/// Lower-cases one ASCII letter; other bytes pass through.
pub open spec fn spec_ascii_lower(b: u8) -> u8 {
    if 0x41 <= b && b <= 0x5a {
        (b + 0x20) as u8
    } else {
        b
    }
}

/// The field's name is readable and equals `q` up to ASCII case.
pub open spec fn spec_name_matches(f: HostField, q: Seq<u8>) -> bool {
    &&& !f.name.is_null
    &&& f.name.len >= 0
    &&& f.name.bytes@.map_values(|b: u8| spec_ascii_lower(b)) == q.map_values(
        |b: u8| spec_ascii_lower(b),
    )
}

/// Index of the first field at or after `i` whose name matches `q` up to
/// ASCII case, if any.
pub open spec fn spec_find_field(m: HostMimeHdr, q: Seq<u8>, i: int) -> Option<int>
    decreases m.fields@.len() - i
        when 0 <= i
{
    if i >= m.fields@.len() {
        None
    } else if spec_name_matches(m.fields@[i], q) {
        Some(i)
    } else {
        spec_find_field(m, q, i + 1)
    }
}

/// Header iteration is complete for a consistent host: when every index up
/// to the reported count resolves to a field, the field sequence is not cut
/// short — it yields exactly the reported count of fields.
pub proof fn lemma_field_iteration_complete(m: HostMimeHdr)
    requires
        m.field_count as int == m.fields@.len(),
    ensures
        spec_field_yield_count(m) == m.field_count as int,
{
}

/// A single MIME header field: a view of the field at one index of its
/// owning collection, borrowing the collection's buffer.
pub struct HeaderField<'a, T: 'a> {
    mime: &'a HostMimeHdr,
    index: usize,
    _parent: PhantomData<&'a T>,
}

impl<'a, T: 'a> Clone for HeaderField<'a, T> {
    fn clone(&self) -> (r: Self)
        ensures
            r == *self,
    {
        HeaderField { mime: self.mime, index: self.index, _parent: PhantomData }
    }
}

impl<'a, T: 'a> Copy for HeaderField<'a, T> {

}

impl<'a, T: 'a> HeaderField<'a, T> {
    /// The owning collection's image.
    pub closed spec fn spec_mime(self) -> HostMimeHdr {
        *self.mime
    }

    /// This field's index in the collection.
    pub closed spec fn spec_index(self) -> int {
        self.index as int
    }

    /// This field's image.
    pub open spec fn spec_field(self) -> HostField {
        self.spec_mime().fields@[self.spec_index()]
    }

    /// The view points at a real field of a well-formed collection image.
    pub open spec fn wf(self) -> bool {
        &&& self.spec_mime().wf()
        &&& 0 <= self.spec_index() < self.spec_mime().fields@.len()
    }

    /// The name of this field, extracted through checked string extraction.
    pub fn get_name(&self) -> (r: Result<&'a str, crate::Error>)
        requires
            self.wf(),
        ensures
            r matches Ok(s) ==> spec_checked_str(self.spec_field().name) == Ok::<
                Seq<char>,
                RawStrError,
            >(s@),
            r matches Err(e) ==> ({
                &&& e matches crate::Error::InvalidRawString(re)
                &&& spec_checked_str(self.spec_field().name) == Err::<Seq<char>, RawStrError>(re)
            }),
    {
        match checked_raw_str(&self.mime.fields[self.index].name) {
            Ok(s) => Ok(s),
            Err(e) => Err(crate::Error::InvalidRawString(e)),
        }
    }

    /// An iterator over all values of this field that skips any invalid
    /// string.
    pub fn get_value_iter(&self) -> (r: HeaderValueIter<'a, T>)
        requires
            self.wf(),
        ensures
            r.wf(),
            r.spec_field() == self.spec_field(),
            r.spec_index() == 0,
            r.spec_length() == self.spec_field().value_count,
    {
        let length = self.mime.fields[self.index].value_count;
        HeaderValueIter { field: *self, index: 0, length }
    }

    /// The first value of this field: the string at value index zero, which
    /// the host reports as null when the field has no stored value.
    pub fn get_value(&self) -> (r: Result<&'a str, crate::Error>)
        requires
            self.wf(),
        ensures
            self.spec_field().values@.len() > 0 ==> ({
                &&& (r matches Ok(s) ==> spec_checked_str(self.spec_field().values@[0]) == Ok::<
                    Seq<char>,
                    RawStrError,
                >(s@))
                &&& (r matches Err(e) ==> e matches crate::Error::InvalidRawString(re)
                    && spec_checked_str(self.spec_field().values@[0]) == Err::<
                    Seq<char>,
                    RawStrError,
                >(re))
            }),
            self.spec_field().values@.len() == 0 ==> r == Err::<&'a str, crate::Error>(
                crate::Error::InvalidRawString(RawStrError::InvalidStringPointer),
            ),
    {
        let field = &self.mime.fields[self.index];
        if field.values.len() == 0 {
            return Err(crate::Error::InvalidRawString(RawStrError::InvalidStringPointer));
        }
        match checked_raw_str(&field.values[0]) {
            Ok(s) => Ok(s),
            Err(e) => Err(crate::Error::InvalidRawString(e)),
        }
    }

    /// Collects the validatable subset of this field's values, preserving
    /// their original order; invalid entries are skipped, never surfaced.
    pub fn get_values(&self) -> (r: Vec<&'a str>)
        requires
            self.wf(),
        ensures
            r@.map_values(|s: &str| s@) =~= spec_valid_values(self.spec_field()),
    {
        let mut out: Vec<&'a str> = Vec::new();
        let mut it = self.get_value_iter();
        loop
            invariant
                it.wf(),
                it.spec_field() == self.spec_field(),
                out@.map_values(|s: &str| s@) + spec_valid_values_from(
                    self.spec_field(),
                    it.spec_index(),
                ) =~= spec_valid_values(self.spec_field()),
            decreases it.spec_length() - it.spec_index(),
        {
            match it.next() {
                Some(s) => {
                    out.push(s);
                },
                None => {
                    return out;
                },
            }
        }
    }
}

/// An iterator over a header field's values that silently skips any index
/// whose string fails validation.
pub struct HeaderValueIter<'a, T: 'a> {
    field: HeaderField<'a, T>,
    index: usize,
    length: usize,
}

impl<'a, T: 'a> HeaderValueIter<'a, T> {
    /// The field image being iterated.
    pub closed spec fn spec_field(self) -> HostField {
        self.field.spec_field()
    }

    /// The next value index to look up.
    pub closed spec fn spec_index(self) -> int {
        self.index as int
    }

    /// The count of values the host reported, bounding the iteration.
    pub closed spec fn spec_length(self) -> int {
        self.length as int
    }

    /// The underlying field view is well formed, the bound is the reported
    /// value count, and the position has not passed the bound.
    pub closed spec fn wf(self) -> bool {
        &&& self.field.wf()
        &&& self.length == self.spec_field().value_count
        &&& self.index <= self.length
    }

    /// The next value that validates, or `None` when the reported range is
    /// exhausted: exactly the validatable subset is yielded, in order.
    pub fn next(&mut self) -> (r: Option<&'a str>)
        requires
            old(self).wf(),
        ensures
            final(self).wf(),
            final(self).spec_field() == old(self).spec_field(),
            final(self).spec_length() == old(self).spec_length(),
            final(self).spec_index() >= old(self).spec_index(),
            r matches Some(s) ==> ({
                &&& spec_valid_values_from(old(self).spec_field(), old(self).spec_index())
                    =~= seq![s@] + spec_valid_values_from(
                    final(self).spec_field(),
                    final(self).spec_index(),
                )
                &&& final(self).spec_index() > old(self).spec_index()
            }),
            r is None ==> ({
                &&& spec_valid_values_from(old(self).spec_field(), old(self).spec_index())
                    =~= Seq::<Seq<char>>::empty()
                &&& final(self).spec_index() == final(self).spec_length()
            }),
    {
        while self.index < self.length
            invariant
                self.wf(),
                self.spec_field() == old(self).spec_field(),
                self.spec_length() == old(self).spec_length(),
                self.spec_index() >= old(self).spec_index(),
                spec_valid_values_from(self.spec_field(), old(self).spec_index())
                    =~= spec_valid_values_from(self.spec_field(), self.spec_index()),
            decreases self.spec_length() - self.spec_index(),
        {
            let i = self.index;
            self.index += 1;
            let field = &self.field.mime.fields[self.field.index];
            if i < field.values.len() {
                let res = checked_raw_str(&field.values[i]);
                if let Ok(s) = res {
                    return Some(s);
                }
            }
        }
        None
    }

    /// A finite upper bound on what remains: no lower bound, and at most the
    /// reported value count.
    pub fn size_hint(&self) -> (r: (usize, Option<usize>))
        ensures
            r.0 == 0,
            r.1 == Some(self.spec_length() as usize),
    {
        (0, Some(self.length))
    }
}

/// An iterator over all fields of a header collection, index-ascending and
/// bounded by the count the host reports; a null lookup ends it early.
pub struct HeaderIter<'a, T: 'a> {
    mime: &'a HostMimeHdr,
    index: usize,
    length: usize,
    _parent: PhantomData<&'a T>,
}

impl<'a, T: 'a> HeaderIter<'a, T> {
    /// The collection image being iterated.
    pub closed spec fn spec_mime(self) -> HostMimeHdr {
        *self.mime
    }

    /// The next field index to look up.
    pub closed spec fn spec_index(self) -> int {
        self.index as int
    }

    /// The count of fields the host reported, bounding the iteration.
    pub closed spec fn spec_length(self) -> int {
        self.length as int
    }

    /// The collection image is well formed and the bound is the reported
    /// field count.
    pub closed spec fn wf(self) -> bool {
        &&& self.spec_mime().wf()
        &&& self.length == self.spec_mime().field_count
    }

    /// The field view at the next index, or `None` once the reported count is
    /// reached or a lookup returns null.
    pub fn next(&mut self) -> (r: Option<HeaderField<'a, T>>)
        requires
            old(self).wf(),
        ensures
            final(self).wf(),
            final(self).spec_mime() == old(self).spec_mime(),
            final(self).spec_length() == old(self).spec_length(),
            old(self).spec_index() >= old(self).spec_length() ==> r is None && *final(self) == *old(
                self,
            ),
            old(self).spec_index() < old(self).spec_length() ==> final(self).spec_index() == old(
                self,
            ).spec_index() + 1 && ({
                if old(self).spec_index() < old(self).spec_mime().fields@.len() {
                    ({
                        &&& r matches Some(f)
                        &&& f.wf()
                        &&& f.spec_mime() == old(self).spec_mime()
                        &&& f.spec_index() == old(self).spec_index()
                    })
                } else {
                    r is None
                }
            }),
    {
        if self.index >= self.length {
            return None;
        }
        let i = self.index;
        self.index += 1;
        if i >= self.mime.fields.len() {
            return None;
        }
        Some(HeaderField { mime: self.mime, index: i, _parent: PhantomData })
    }

    /// A finite upper bound on what remains: no lower bound, and at most the
    /// reported field count.
    pub fn size_hint(&self) -> (r: (usize, Option<usize>))
        ensures
            r.0 == 0,
            r.1 == Some(self.spec_length() as usize),
    {
        (0, Some(self.length))
    }
}

/// View of the MIME header collection of a request or response, borrowing
/// the host-owned buffer of its parent.
pub struct Headers<'a, T: 'a> {
    mime: &'a HostMimeHdr,
    _parent: PhantomData<&'a T>,
}

impl<'a, T: 'a> Headers<'a, T> {
    /// The collection image this view reads.
    pub closed spec fn spec_mime(self) -> HostMimeHdr {
        *self.mime
    }

    /// The collection image is well formed.
    pub open spec fn wf(self) -> bool {
        self.spec_mime().wf()
    }

    /// Wraps a collection image.
    pub fn new(mime: &'a HostMimeHdr) -> (r: Self)
        ensures
            r.spec_mime() == *mime,
    {
        Headers { mime, _parent: PhantomData }
    }

    /// An iterator over all fields, starting at index zero and bounded by
    /// the count the host reports.
    pub fn iter(&self) -> (r: HeaderIter<'a, T>)
        requires
            self.wf(),
        ensures
            r.wf(),
            r.spec_mime() == self.spec_mime(),
            r.spec_index() == 0,
            r.spec_length() == self.spec_mime().field_count,
    {
        HeaderIter { mime: self.mime, index: 0, length: self.mime.field_count, _parent: PhantomData }
    }

    /// Collects the field views the iteration yields: one per index, in
    /// ascending index order, as many as the count the host reports unless a
    /// null lookup ends it early.
    pub fn fields(&self) -> (r: Vec<HeaderField<'a, T>>)
        requires
            self.wf(),
        ensures
            r@.len() == spec_field_yield_count(self.spec_mime()),
            forall|i: int|
                0 <= i < r@.len() ==> {
                    &&& (#[trigger] r@[i]).wf()
                    &&& r@[i].spec_mime() == self.spec_mime()
                    &&& r@[i].spec_index() == i
                },
    {
        let mut out: Vec<HeaderField<'a, T>> = Vec::new();
        let mut it = self.iter();
        loop
            invariant
                it.wf(),
                it.spec_mime() == self.spec_mime(),
                it.spec_length() == self.spec_mime().field_count,
                out@.len() == it.spec_index(),
                it.spec_index() <= spec_field_yield_count(self.spec_mime()),
                forall|i: int|
                    0 <= i < out@.len() ==> {
                        &&& (#[trigger] out@[i]).wf()
                        &&& out@[i].spec_mime() == self.spec_mime()
                        &&& out@[i].spec_index() == i
                    },
            decreases it.spec_length() - it.spec_index(),
        {
            match it.next() {
                Some(f) => {
                    out.push(f);
                },
                None => {
                    return out;
                },
            }
        }
    }

    /// The first field whose name equals `name` up to ASCII case, if any.
    pub fn find(&self, name: &str) -> (r: Option<HeaderField<'a, T>>)
        requires
            self.wf(),
        ensures
            spec_find_field(self.spec_mime(), name.spec_bytes(), 0) matches Some(i) ==> ({
                &&& r matches Some(f)
                &&& f.wf()
                &&& f.spec_mime() == self.spec_mime()
                &&& f.spec_index() == i
            }),
            spec_find_field(self.spec_mime(), name.spec_bytes(), 0) is None ==> r is None,
    {
        let q = name.as_bytes();
        let n = self.mime.fields.len();
        let mut i: usize = 0;
        while i < n
            invariant
                i <= n,
                n == self.spec_mime().fields@.len(),
                self.wf(),
                q@ == name.spec_bytes(),
                spec_find_field(self.spec_mime(), q@, 0) == spec_find_field(
                    self.spec_mime(),
                    q@,
                    i as int,
                ),
            decreases n - i,
        {
            let field = &self.mime.fields[i];
            if !field.name.is_null && field.name.len >= 0 && eq_ignore_ascii_case_bytes(
                field.name.bytes.as_slice(),
                q,
            ) {
                proof {
                    assert(spec_name_matches(self.spec_mime().fields@[i as int], q@));
                    assert(spec_find_field(self.spec_mime(), q@, i as int) == Some(i as int));
                }
                return Some(HeaderField { mime: self.mime, index: i, _parent: PhantomData });
            }
            proof {
                assert(!spec_name_matches(self.spec_mime().fields@[i as int], q@));
                assert(spec_find_field(self.spec_mime(), q@, i as int) == spec_find_field(
                    self.spec_mime(),
                    q@,
                    i as int + 1,
                ));
            }
            i += 1;
        }
        proof {
            assert(spec_find_field(self.spec_mime(), q@, n as int) is None);
        }
        None
    }
}

/// Lower-cases one ASCII letter; other bytes pass through.
fn ascii_lower(b: u8) -> (r: u8)
    ensures
        r == spec_ascii_lower(b),
{
    if 0x41 <= b && b <= 0x5a {
        b + 0x20
    } else {
        b
    }
}

/// Byte-wise comparison up to ASCII case.
fn eq_ignore_ascii_case_bytes(a: &[u8], b: &[u8]) -> (r: bool)
    ensures
        r <==> a@.map_values(|x: u8| spec_ascii_lower(x)) == b@.map_values(
            |x: u8| spec_ascii_lower(x),
        ),
{
    let ghost la = a@.map_values(|x: u8| spec_ascii_lower(x));
    let ghost lb = b@.map_values(|x: u8| spec_ascii_lower(x));
    if a.len() != b.len() {
        proof {
            assert(la.len() != lb.len());
        }
        return false;
    }
    let n = a.len();
    let mut i: usize = 0;
    while i < n
        invariant
            i <= n,
            n == a@.len(),
            n == b@.len(),
            la == a@.map_values(|x: u8| spec_ascii_lower(x)),
            lb == b@.map_values(|x: u8| spec_ascii_lower(x)),
            forall|j: int| 0 <= j < i ==> la[j] == lb[j],
        decreases n - i,
    {
        if ascii_lower(a[i]) != ascii_lower(b[i]) {
            proof {
                assert(la[i as int] != lb[i as int]);
            }
            return false;
        }
        i += 1;
    }
    proof {
        assert(la =~= lb);
    }
    true
}

} // verus!
