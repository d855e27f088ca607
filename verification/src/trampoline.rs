//! The native handle trampoline: manufactures, over caller-supplied header
//! storage, a value with the shape the native API expects of its string
//! handle, describing a borrowed parameter string — so the last copy before
//! a native call is elided.
//!
//! The manufactured value never owns the described memory, and must never
//! reach the native runtime's own destruction path. The types make that
//! unrepresentable: the overlay type exposes no
//! operation that destroys or takes over the handle, it can only be read
//! by reference at a call boundary, and it borrows both the header storage
//! and the source string, so neither can go away while it lives.

use vstd::prelude::*;
use crate::error::{Error, ERROR_INVALID_PARAMETER};
use crate::string::{utf16z_wf, ParameterString, U16ZKnownLength};

verus! {

/// Caller-supplied storage for the header of a fast-pass native string
/// reference. Fresh storage describes nothing; the trampoline fills it with
/// the {buffer, reported length} pair the native API reads.
#[derive(Debug)]
pub struct HStringHeader<'a> {
    buffer: Option<&'a [u16]>,
    reported_len: u32,
}

impl<'a> View for HStringHeader<'a> {
    type V = Seq<u16>;

    /// The described buffer, terminator included; empty while uninitialized.
    closed spec fn view(&self) -> Seq<u16> {
        match self.buffer {
            Some(b) => b@,
            None => Seq::empty(),
        }
    }
}

impl<'a> HStringHeader<'a> {
    /// Whether the trampoline has filled this header.
    pub closed spec fn is_initialized(&self) -> bool {
        self.buffer is Some
    }

    /// The length the header reports to the native API: the code units
    /// before the terminator.
    pub closed spec fn reported_len_spec(&self) -> u32 {
        self.reported_len
    }

    /// Fresh, unfilled header storage.
    pub fn new() -> (h: HStringHeader<'a>)
        ensures
            !h.is_initialized(),
    {
        HStringHeader { buffer: None, reported_len: 0 }
    }

    /// The described nul-terminated buffer, as the native API would read it.
    pub fn utf16z_slice(&self) -> (r: &'a [u16])
        requires
            self.is_initialized(),
        ensures
            r@ == self@,
    {
        match self.buffer {
            Some(b) => b,
            None => unreached(),
        }
    }

    /// The length field of the header, as the native API would read it.
    pub fn reported_len(&self) -> (n: u32)
        ensures
            n == self.reported_len_spec(),
    {
        self.reported_len
    }
}

/// The fast-pass overlay: shaped like the native runtime's own string
/// handle and passed where one is expected, but a non-owning reference to
/// storage the caller controls. It cannot be constructed except by the
/// trampoline, exposes nothing that could destroy a native string, and is
/// consumable only by reference, so it can never wander into the native
/// runtime's destruction path.
#[derive(Debug)]
pub struct ICantBelieveItsNotHString<'h, 'a> {
    header: &'h HStringHeader<'a>,
}

impl<'h, 'a> View for ICantBelieveItsNotHString<'h, 'a> {
    type V = Seq<u16>;

    /// The described buffer, terminator included.
    closed spec fn view(&self) -> Seq<u16> {
        self.header@
    }
}

impl<'h, 'a> ICantBelieveItsNotHString<'h, 'a> {
    /// The described buffer is well formed and the header describes it.
    pub closed spec fn wf(&self) -> bool {
        &&& self.header.is_initialized()
        &&& utf16z_wf(self@)
        &&& self.header.reported_len_spec() == self@.len() - 1
    }

    /// Lends the handle for the duration of one native call. Only a borrow
    /// of the header ever leaves; no owned native handle exists that a
    /// destruction path could consume.
    pub fn as_hstring(&self) -> (r: &'h HStringHeader<'a>)
        requires
            self.wf(),
        ensures
            r@ == self@,
            r.is_initialized(),
            r.reported_len_spec() == self@.len() - 1,
    {
        self.header
    }

    /// The nul-terminated view the handle describes.
    pub fn u16z_view(&self) -> (v: U16ZKnownLength<'a>)
        requires
            self.wf(),
        ensures
            v@ == self@,
            v.wf(),
    {
        U16ZKnownLength::with_utf16z(self.header.utf16z_slice())
    }
}

impl<'a> ParameterString<'a> {
    /// Writes into `header` the {buffer, length} metadata describing this
    /// string, and produces the overlay handle over that header. Succeeds
    /// exactly when the buffer's content length is one the native header can
    /// report; on refusal nothing partially initialized is returned.
    ///
    /// The overlay borrows the header and the string: both outlive it by
    /// construction, so using it after either is gone is unrepresentable.
    pub fn into_hstring_trampoline<'h, 's>(&'s self, header: &'h mut HStringHeader<'s>) -> (r:
        Result<ICantBelieveItsNotHString<'h, 's>, Error>)
        requires
            self.wf(),
        ensures
            match r {
                Ok(h) => {
                    &&& h@ == self@
                    &&& h.wf()
                    &&& self@.len() - 1 <= u32::MAX
                },
                Err(e) => {
                    &&& self@.len() - 1 > u32::MAX
                    &&& e.code_spec() == ERROR_INVALID_PARAMETER
                },
            },
    {
        let units = self.as_units();
        if (units.len() as u64) - 1 > u32::MAX as u64 {
            return Err(Error::from_win32(ERROR_INVALID_PARAMETER));
        }
        *header = HStringHeader { buffer: Some(units), reported_len: (units.len() - 1) as u32 };
        Ok(ICantBelieveItsNotHString { header: &*header })
    }
}

} // verus!
