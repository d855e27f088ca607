//! The string representations that cross the native API boundary, and the
//! conversions between them.
//!
//! Every representation's native view is a nul-terminated buffer of wide
//! code units, modelled as a `Seq<u16>` satisfying [`utf16z_wf`]. The
//! [`IntoParameterString`] trait is the conversion capability: it turns any
//! supported input into a [`ParameterString`], either by borrowing a buffer
//! that is already in the native encoding (the zero-copy path) or by
//! transcoding into a freshly allocated backing buffer.

use vstd::prelude::*;
use vstd::slice::{slice_subrange, slice_to_vec};
use crate::encoding::{decode_utf16, encode_utf16, encode_utf16z, utf16_to_string};
use crate::release_pool::ReleasePool;

verus! {

/// A well-formed native string buffer: nonempty, its last code unit the
/// terminator. The terminator therefore stands strictly before the buffer's
/// end, and a scan from index 0 finds one within the length.
pub open spec fn utf16z_wf(s: Seq<u16>) -> bool {
    s.len() >= 1 && s[s.len() - 1] == 0
}

/// Index just past the first terminator of `s`: the length of the prefix a
/// terminator scan yields. Meaningful whenever `s` contains a terminator.
pub open spec fn first_terminator_end(s: Seq<u16>) -> int
    decreases s.len(),
{
    if s.len() == 0 {
        0
    } else if s[0] == 0 {
        1
    } else {
        1 + first_terminator_end(s.drop_first())
    }
}

/// Law (terminator within bounds): every well-formed native buffer contains
/// a terminator strictly before its end, and the scan from index 0 stops at
/// the first one, within the buffer's length.
pub proof fn lemma_terminator_within(s: Seq<u16>)
    requires
        utf16z_wf(s),
    ensures
        1 <= first_terminator_end(s) <= s.len(),
        s[first_terminator_end(s) - 1] == 0,
        forall|j: int| 0 <= j < first_terminator_end(s) - 1 ==> s[j] != 0,
    decreases s.len(),
{
    if s[0] == 0 {
    } else {
        let t = s.drop_first();
        assert(s.len() >= 2);
        assert(t[t.len() - 1] == s[s.len() - 1]);
        lemma_terminator_within(t);
        assert forall|j: int| 0 <= j < first_terminator_end(s) - 1 implies s[j] != 0 by {
            if j > 0 {
                assert(t[j - 1] != 0);
            }
        }
    }
}

/// The same scan on a buffer that merely contains a terminator somewhere.
pub proof fn lemma_terminator_scan(s: Seq<u16>, k: int)
    requires
        0 <= k < s.len(),
        s[k] == 0,
    ensures
        1 <= first_terminator_end(s) <= k + 1,
        s[first_terminator_end(s) - 1] == 0,
        forall|j: int| 0 <= j < first_terminator_end(s) - 1 ==> s[j] != 0,
    decreases s.len(),
{
    if s[0] == 0 {
    } else {
        let t = s.drop_first();
        assert(t[k - 1] == s[k]);
        lemma_terminator_scan(t, k - 1);
        assert forall|j: int| 0 <= j < first_terminator_end(s) - 1 implies s[j] != 0 by {
            if j > 0 {
                assert(t[j - 1] != 0);
            }
        }
    }
}

/// Law (round trip): the native view a transcoding conversion produces for
/// a text — its encoding plus the terminator — decodes, once the terminator
/// is dropped again, back to exactly that text. With the conversions'
/// contracts this carries any application text through `ParameterString`,
/// `OwnedString` or the trampoline and back unchanged.
pub proof fn lemma_conversion_round_trip(t: Seq<char>)
    ensures
        decode_utf16((encode_utf16(t) + seq![0u16]).drop_last()) == Some(t),
{
    assert((encode_utf16(t) + seq![0u16]).drop_last() =~= encode_utf16(t));
    crate::encoding::lemma_utf16_round_trip(t);
}

/// Compares two native buffers by content.
fn utf16_eq(a: &[u16], b: &[u16]) -> (r: bool)
    ensures
        r == (a@ == b@),
{
    if a.len() != b.len() {
        proof {
            assert(a@ != b@);
        }
        return false;
    }
    let n = a.len();
    let mut i: usize = 0;
    while i < n
        invariant
            0 <= i <= n,
            n == a@.len() == b@.len(),
            forall|j: int| 0 <= j < i ==> a@[j] == b@[j],
        decreases n - i,
    {
        if a[i] != b[i] {
            return false;
        }
        i = i + 1;
    }
    proof {
        assert(a@ =~= b@);
    }
    true
}

/// Decodes a whole native buffer (terminator included) back into
/// application text, dropping the terminator first.
fn utf16z_decode(units: &[u16]) -> (r: Option<String>)
    requires
        utf16z_wf(units@),
    ensures
        r is Some <==> decode_utf16(units@.drop_last()) is Some,
        r matches Some(s) ==> Some(s@) == decode_utf16(units@.drop_last()),
{
    let content = slice_subrange(units, 0, units.len() - 1);
    proof {
        assert(content@ =~= units@.drop_last());
    }
    utf16_to_string(content)
}

/// A short-lived parameter string: the native view for one call, either
/// borrowed from a buffer that already has the native encoding, or owning
/// the backing buffer a conversion allocated. Equality is defined over the
/// view's content, ignoring which of the two holds it.
#[derive(Debug)]
pub enum ParameterString<'a> {
    /// The zero-copy path: borrows an existing native buffer and holds no
    /// storage of its own.
    Borrowed(&'a [u16]),
    /// The transcode path: owns the backing buffer the conversion filled.
    Owned(Vec<u16>),
}

impl<'a> View for ParameterString<'a> {
    type V = Seq<u16>;

    open spec fn view(&self) -> Seq<u16> {
        match self {
            ParameterString::Borrowed(s) => s@,
            ParameterString::Owned(v) => v@,
        }
    }
}

impl<'a> ParameterString<'a> {
    /// The native view is a well-formed nul-terminated buffer.
    pub open spec fn wf(&self) -> bool {
        utf16z_wf(self@)
    }

    /// Whether this value borrows its buffer and owns no storage: the mark
    /// of the zero-copy conversion path.
    pub open spec fn is_zero_copy(&self) -> bool {
        self matches ParameterString::Borrowed(_)
    }

    /// The underlying code units, terminator included.
    pub fn as_units(&self) -> (r: &[u16])
        ensures
            r@ == self@,
    {
        match self {
            ParameterString::Borrowed(s) => s,
            ParameterString::Owned(v) => v.as_slice(),
        }
    }

    /// The nul-terminated view with its length already known.
    pub fn u16z_view(&self) -> (v: U16ZKnownLength<'_>)
        ensures
            v@ == self@,
    {
        U16ZKnownLength(self.as_units())
    }
}

impl<'a> PartialEq for ParameterString<'a> {
    fn eq(&self, other: &Self) -> bool {
        utf16_eq(self.as_units(), other.as_units())
    }
}

impl<'a> Eq for ParameterString<'a> {}

impl<'a> vstd::std_specs::cmp::PartialEqSpecImpl for ParameterString<'a> {
    open spec fn obeys_eq_spec() -> bool {
        true
    }

    open spec fn eq_spec(&self, other: &ParameterString<'a>) -> bool {
        self@ == other@
    }
}

/// Types that can be converted into a native string parameter.
///
/// `utf16z_spec` names the native view the conversion will produce, so each
/// implementation's contract pins its result exactly; `zero_copy_conversion`
/// marks the implementations that only borrow and never allocate.
pub trait IntoParameterString<'a>: Sized {
    /// The native view (terminator included) that conversion produces.
    spec fn utf16z_spec(&self) -> Seq<u16>;

    /// What conversion relies on: for inputs that already carry a native
    /// buffer, that the buffer is well formed. `true` for inputs that are
    /// transcoded.
    spec fn conversion_wf(&self) -> bool;

    /// Whether conversion takes the zero-copy path: the result borrows the
    /// input's buffer and no allocation happens.
    spec fn zero_copy_conversion(&self) -> bool;

    /// Converts into a parameter string holding exactly the native view
    /// this type stands for.
    ///
    /// The scoped-context token is taken because, on platforms whose native
    /// runtime requires an active resource scope, conversions call into that
    /// runtime.
    fn into_parameter_string(self, pool: &ReleasePool) -> (r: ParameterString<'a>)
        requires
            self.conversion_wf(),
        ensures
            r@ == self.utf16z_spec(),
            utf16z_wf(r@),
            self.zero_copy_conversion() ==> r.is_zero_copy(),
    ;
}

impl<'a> IntoParameterString<'a> for ParameterString<'a> {
    open spec fn utf16z_spec(&self) -> Seq<u16> {
        self@
    }

    open spec fn conversion_wf(&self) -> bool {
        self.wf()
    }

    open spec fn zero_copy_conversion(&self) -> bool {
        self.is_zero_copy()
    }

    fn into_parameter_string(self, _pool: &ReleasePool) -> (r: ParameterString<'a>) {
        self
    }
}

impl<'a> IntoParameterString<'a> for &'a str {
    /// Transcoding appends the terminator to the text's native encoding.
    open spec fn utf16z_spec(&self) -> Seq<u16> {
        encode_utf16(self@) + seq![0u16]
    }

    open spec fn conversion_wf(&self) -> bool {
        true
    }

    open spec fn zero_copy_conversion(&self) -> bool {
        false
    }

    fn into_parameter_string(self, _pool: &ReleasePool) -> (r: ParameterString<'a>) {
        let v = encode_utf16z(self);
        proof {
            assert(v@[v@.len() - 1] == 0);
        }
        ParameterString::Owned(v)
    }
}

impl IntoParameterString<'static> for String {
    /// An owned text buffer moved into the conversion; transcoded, so the
    /// result does not borrow from the input and lives on its own.
    open spec fn utf16z_spec(&self) -> Seq<u16> {
        encode_utf16(self@) + seq![0u16]
    }

    open spec fn conversion_wf(&self) -> bool {
        true
    }

    open spec fn zero_copy_conversion(&self) -> bool {
        false
    }

    fn into_parameter_string(self, _pool: &ReleasePool) -> (r: ParameterString<'static>) {
        let v = encode_utf16z(self.as_str());
        proof {
            assert(v@[v@.len() - 1] == 0);
        }
        ParameterString::Owned(v)
    }
}

/// A static string: program-lifetime memory already in the native encoding,
/// terminator included, embedded at compile or link time.
#[derive(Debug, Clone, Copy)]
pub struct PStr(pub &'static [u16]);

impl View for PStr {
    type V = Seq<u16>;

    open spec fn view(&self) -> Seq<u16> {
        self.0@
    }
}

impl PStr {
    /// The embedded buffer is well formed.
    pub open spec fn wf(&self) -> bool {
        utf16z_wf(self@)
    }

    /// Decodes back into application text; fails exactly on malformed
    /// embedded code units, never silently.
    pub fn to_string(&self) -> (r: Option<String>)
        requires
            self.wf(),
        ensures
            r is Some <==> decode_utf16(self@.drop_last()) is Some,
            r matches Some(s) ==> Some(s@) == decode_utf16(self@.drop_last()),
    {
        utf16z_decode(self.0)
    }
}

impl IntoParameterString<'static> for PStr {
    open spec fn utf16z_spec(&self) -> Seq<u16> {
        self@
    }

    open spec fn conversion_wf(&self) -> bool {
        self.wf()
    }

    /// Law (static strings convert without allocating): converting a static
    /// string is always the zero-copy path.
    open spec fn zero_copy_conversion(&self) -> bool {
        true
    }

    fn into_parameter_string(self, _pool: &ReleasePool) -> (r: ParameterString<'static>) {
        ParameterString::Borrowed(self.0)
    }
}

/// A nul-terminated view whose length (terminator included) is already
/// known: no scan is needed to use it.
#[derive(Debug, Clone, Copy)]
pub struct U16ZKnownLength<'a>(&'a [u16]);

impl<'a> View for U16ZKnownLength<'a> {
    type V = Seq<u16>;

    closed spec fn view(&self) -> Seq<u16> {
        self.0@
    }
}

impl<'a> U16ZKnownLength<'a> {
    /// The viewed buffer is well formed.
    pub open spec fn wf(&self) -> bool {
        utf16z_wf(self@)
    }

    /// Copies into an owned string, erasing the lifetime.
    pub fn to_owned(&self) -> (o: OwnedString)
        ensures
            o@ == self@,
    {
        OwnedString(slice_to_vec(self.0))
    }

    /// The nul-terminated code units themselves.
    pub fn utf16z_slice(&self) -> (r: &'a [u16])
        ensures
            r@ == self@,
    {
        self.0
    }

    /// Wraps a buffer already known to end in the terminator.
    pub(crate) fn with_utf16z(slice: &'a [u16]) -> (r: Self)
        requires
            utf16z_wf(slice@),
        ensures
            r@ == slice@,
            r.wf(),
    {
        U16ZKnownLength(slice)
    }
}

impl<'a> IntoParameterString<'a> for U16ZKnownLength<'a> {
    open spec fn utf16z_spec(&self) -> Seq<u16> {
        self@
    }

    open spec fn conversion_wf(&self) -> bool {
        self.wf()
    }

    open spec fn zero_copy_conversion(&self) -> bool {
        true
    }

    fn into_parameter_string(self, _pool: &ReleasePool) -> (r: ParameterString<'a>) {
        ParameterString::Borrowed(self.0)
    }
}

/// A nul-terminated view whose length is not known: the underlying buffer
/// must contain at least one terminator before its end, and the usable
/// prefix ends at the first one.
#[derive(Debug, Clone, Copy)]
pub struct U16ZErasedLength<'a>(&'a [u16]);

impl<'a> View for U16ZErasedLength<'a> {
    type V = Seq<u16>;

    closed spec fn view(&self) -> Seq<u16> {
        self.0@
    }
}

impl<'a> U16ZErasedLength<'a> {
    /// The buffer contains a terminator somewhere before its end. Creating
    /// a view over a buffer without one is a contract violation, which the
    /// constructor's precondition makes impossible rather than detecting it
    /// late.
    pub open spec fn wf(&self) -> bool {
        exists|i: int| 0 <= i < self@.len() && self@[i] == 0
    }

    /// Wraps a buffer that contains a terminator.
    pub fn with_u16_z_unknown_length(slice: &'a [u16]) -> (r: Self)
        requires
            exists|i: int| 0 <= i < slice@.len() && slice@[i] == 0,
        ensures
            r@ == slice@,
            r.wf(),
    {
        let r = U16ZErasedLength(slice);
        proof {
            let k = choose|i: int| 0 <= i < slice@.len() && slice@[i] == 0;
            assert(0 <= k < r@.len() && r@[k] == 0);
        }
        r
    }

    /// Scans from index 0 for the terminator; the returned length includes
    /// it, and nothing before it is a terminator.
    pub fn len_with_z(&self) -> (n: usize)
        requires
            self.wf(),
        ensures
            n == first_terminator_end(self@),
            1 <= n <= self@.len(),
            self@[n - 1] == 0,
            forall|j: int| 0 <= j < n - 1 ==> self@[j] != 0,
    {
        proof {
            let k = choose|i: int| 0 <= i < self@.len() && self@[i] == 0;
            lemma_terminator_scan(self@, k);
        }
        let n = self.0.len();
        let mut i: usize = 0;
        while i < n
            invariant
                0 <= i <= n,
                n == self@.len(),
                i < first_terminator_end(self@),
                forall|j: int| 0 <= j < i ==> self@[j] != 0,
                1 <= first_terminator_end(self@) <= self@.len(),
                self@[first_terminator_end(self@) - 1] == 0,
                forall|j: int| 0 <= j < first_terminator_end(self@) - 1 ==> self@[j] != 0,
            decreases n - i,
        {
            if self.0[i] == 0 {
                return i + 1;
            }
            i = i + 1;
        }
        proof {
            assert(false);
        }
        unreached()
    }

    /// Locates the terminator and returns the known-length view ending just
    /// after it, excluding whatever trails it.
    pub fn find_length(&self) -> (r: U16ZKnownLength<'a>)
        requires
            self.wf(),
        ensures
            r@ == self@.take(first_terminator_end(self@)),
            r.wf(),
    {
        let n = self.len_with_z();
        let prefix = slice_subrange(self.0, 0, n);
        proof {
            assert(prefix@ =~= self@.take(first_terminator_end(self@)));
        }
        U16ZKnownLength(prefix)
    }
}

impl<'a> IntoParameterString<'a> for &U16ZErasedLength<'a> {
    /// The view up to and including the first terminator.
    open spec fn utf16z_spec(&self) -> Seq<u16> {
        self@.take(first_terminator_end(self@))
    }

    open spec fn conversion_wf(&self) -> bool {
        U16ZErasedLength::wf(*self)
    }

    open spec fn zero_copy_conversion(&self) -> bool {
        true
    }

    fn into_parameter_string(self, _pool: &ReleasePool) -> (r: ParameterString<'a>) {
        let known = self.find_length();
        ParameterString::Borrowed(known.0)
    }
}

/// An independently owned native string: its buffer is copied (or taken
/// over) from a conversion, so its lifetime is unbounded.
#[derive(Debug)]
pub struct OwnedString(Vec<u16>);

impl View for OwnedString {
    type V = Seq<u16>;

    closed spec fn view(&self) -> Seq<u16> {
        self.0@
    }
}

impl OwnedString {
    /// The owned buffer is well formed.
    pub open spec fn wf(&self) -> bool {
        utf16z_wf(self@)
    }

    /// Builds an owned string from any convertible input: the conversion's
    /// backing buffer is taken by move when the conversion allocated one,
    /// and cloned when the conversion merely borrowed.
    pub fn new<'a, S: IntoParameterString<'a>>(string: S, pool: &ReleasePool) -> (o: OwnedString)
        requires
            string.conversion_wf(),
        ensures
            o@ == string.utf16z_spec(),
            o.wf(),
    {
        let parameter_string = string.into_parameter_string(pool);
        match parameter_string {
            ParameterString::Owned(backing) => OwnedString(backing),
            ParameterString::Borrowed(slice) => OwnedString(slice_to_vec(slice)),
        }
    }

    /// Decodes back into application text; fails exactly on malformed code
    /// units, never silently.
    pub fn to_string(&self) -> (r: Option<String>)
        requires
            self.wf(),
        ensures
            r is Some <==> decode_utf16(self@.drop_last()) is Some,
            r matches Some(s) ==> Some(s@) == decode_utf16(self@.drop_last()),
    {
        utf16z_decode(self.0.as_slice())
    }
}

impl<'a> IntoParameterString<'a> for &'a OwnedString {
    open spec fn utf16z_spec(&self) -> Seq<u16> {
        self@
    }

    open spec fn conversion_wf(&self) -> bool {
        OwnedString::wf(*self)
    }

    open spec fn zero_copy_conversion(&self) -> bool {
        true
    }

    fn into_parameter_string(self, _pool: &ReleasePool) -> (r: ParameterString<'a>) {
        ParameterString::Borrowed(self.0.as_slice())
    }
}

} // verus!
