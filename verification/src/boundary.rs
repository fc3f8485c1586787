//! The return-value conventions at the native call boundary.
//!
//! A trampoline must hand results back in the exact shape the native caller
//! expects: a nullable object pointer or a boolean return, next to an error
//! output slot.  The pair is subject to the error-channel convention: on
//! every return, a present error excludes a present success result, and the
//! plain return value is the operation's failure sentinel (null or false)
//! whenever the error slot is filled.  The codecs here convert between safe
//! `Result` values and that raw shape, and the lemmas pin the convention:
//! the conversion is exact, loses nothing, and never fills both channels.

use vstd::prelude::*;

use crate::error::Error;

verus! {

/// The raw return shape of a fallible, object-returning vtable slot: a
/// nullable object (ownership fully transferred to the caller) and an error
/// output slot (ownership fully transferred when filled).
pub struct ObjReturn<V> {
    /// The object handed to the caller; absent means the null sentinel.
    pub ret: Option<V>,
    /// The error output slot.
    pub err: Option<Error>,
}

impl<V> ObjReturn<V> {
    /// The error-channel convention for object returns: a present success
    /// object and a present error never coexist.
    pub open spec fn wf(self) -> bool {
        !(self.ret is Some && self.err is Some)
    }

    /// The safe result this raw return stands for.
    pub open spec fn as_result(self) -> Result<Option<V>, Error> {
        match self.err {
            Some(e) => Err(e),
            None => Ok(self.ret),
        }
    }
}

/// The raw shape an encoded object result takes.
pub open spec fn spec_encode_obj<V>(r: Result<Option<V>, Error>) -> ObjReturn<V> {
    match r {
        Ok(v) => ObjReturn { ret: v, err: None },
        Err(e) => ObjReturn { ret: None, err: Some(e) },
    }
}

/// Converts a safe object result into the raw return shape, filling exactly
/// one channel.
pub fn encode_obj_result<V>(r: Result<Option<V>, Error>) -> (q: ObjReturn<V>)
    ensures
        q == spec_encode_obj(r),
        q.wf(),
{
    match r {
        Ok(v) => ObjReturn { ret: v, err: None },
        Err(e) => ObjReturn { ret: None, err: Some(e) },
    }
}

/// Reads a raw object return back into a safe result.
pub fn decode_obj_result<V>(q: ObjReturn<V>) -> (r: Result<Option<V>, Error>)
    requires
        q.wf(),
    ensures
        r == q.as_result(),
{
    let ObjReturn { ret, err } = q;
    match err {
        Some(e) => Err(e),
        None => Ok(ret),
    }
}

/// Error-channel exclusivity for object returns: whatever result a
/// trampoline encodes, the raw return never carries both a success object
/// and an error.
pub proof fn lemma_obj_channel_exclusive<V>(r: Result<Option<V>, Error>)
    ensures
        spec_encode_obj(r).wf(),
{
}

/// Encoding an object result and reading it back yields the original
/// result: the boundary crossing loses nothing and invents nothing.
pub proof fn lemma_obj_round_trip<V>(r: Result<Option<V>, Error>)
    ensures
        spec_encode_obj(r).as_result() == r,
{
}

/// Every raw object return obeying the error-channel convention is the
/// encoding of exactly one safe result: the convention admits no state a
/// safe result cannot express.
pub proof fn lemma_obj_encode_onto<V>(q: ObjReturn<V>)
    requires
        q.wf(),
    ensures
        spec_encode_obj(q.as_result()) == q,
{
}

/// The raw return shape of a fallible, boolean-returning vtable slot: the
/// boolean return next to the error output slot, with `false` as the
/// failure sentinel.
pub struct BoolReturn {
    /// The boolean handed to the caller.
    pub ret: bool,
    /// The error output slot.
    pub err: Option<Error>,
}

impl BoolReturn {
    /// The error-channel convention for boolean returns: whenever the error
    /// slot is filled, the plain return is the failure sentinel.
    pub open spec fn wf(self) -> bool {
        self.err is Some ==> self.ret == false
    }

    /// The safe result this raw return stands for.
    pub open spec fn as_result(self) -> Result<bool, Error> {
        match self.err {
            Some(e) => Err(e),
            None => Ok(self.ret),
        }
    }
}

/// The raw shape an encoded boolean result takes.
pub open spec fn spec_encode_bool(r: Result<bool, Error>) -> BoolReturn {
    match r {
        Ok(b) => BoolReturn { ret: b, err: None },
        Err(e) => BoolReturn { ret: false, err: Some(e) },
    }
}

/// Converts a safe boolean result into the raw return shape, returning the
/// failure sentinel exactly when the error slot is filled.
pub fn encode_bool_result(r: Result<bool, Error>) -> (q: BoolReturn)
    ensures
        q == spec_encode_bool(r),
        q.wf(),
{
    match r {
        Ok(b) => BoolReturn { ret: b, err: None },
        Err(e) => BoolReturn { ret: false, err: Some(e) },
    }
}

/// Reads a raw boolean return back into a safe result.
pub fn decode_bool_result(q: BoolReturn) -> (r: Result<bool, Error>)
    requires
        q.wf(),
    ensures
        r == q.as_result(),
{
    let BoolReturn { ret, err } = q;
    match err {
        Some(e) => Err(e),
        None => Ok(ret),
    }
}

/// Error-channel exclusivity for boolean returns: an encoded result never
/// reports success while the error slot is filled.
pub proof fn lemma_bool_channel_exclusive(r: Result<bool, Error>)
    ensures
        spec_encode_bool(r).wf(),
{
}

/// Encoding a boolean result and reading it back yields the original
/// result.
pub proof fn lemma_bool_round_trip(r: Result<bool, Error>)
    ensures
        spec_encode_bool(r).as_result() == r,
{
}

/// A container of owned strings crossing the boundary with full transfer of
/// ownership: the receiver owns the backing array and every element.
pub struct StrArray {
    pub items: Vec<String>,
}

impl View for StrArray {
    type V = Seq<Seq<char>>;

    open spec fn view(&self) -> Seq<Seq<char>> {
        self.items.deep_view()
    }
}

/// Hands a list of owned strings across the boundary, transferring
/// ownership of the container and of each element exactly once.
pub fn strings_to_native(v: Vec<String>) -> (a: StrArray)
    ensures
        a.items == v,
        a@ == v.deep_view(),
{
    StrArray { items: v }
}

/// Takes a transferred container back, assuming ownership of the container
/// and of each element exactly once.
pub fn strings_from_native(a: StrArray) -> (v: Vec<String>)
    ensures
        v == a.items,
        v.deep_view() == a@,
{
    let StrArray { items } = a;
    items
}

/// Ownership round trip for transferred string containers: sending a list
/// across the boundary and taking it back yields the same elements in the
/// same order, each owned exactly once — nothing is leaked and nothing is
/// freed twice.
pub proof fn lemma_container_round_trip(v: Vec<String>, a: StrArray, w: Vec<String>)
    requires
        a.items == v,
        w == a.items,
    ensures
        w == v,
        w.deep_view() == v.deep_view(),
{
}

} // verus!
