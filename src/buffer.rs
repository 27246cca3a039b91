//! Fixed-capacity byte buffer used for image reassembly.

use vstd::prelude::*;

verus! {

/// Largest image, in bytes, that a handler will reassemble.
pub const IMAGE_BUFFER_CAPACITY: usize = 32768;

/// heapless::Vec: a vector with room for `N` elements stored inline; its
/// contents are known only through `held_bytes`.
#[verifier::external_type_specification]
#[verifier::external_body]
#[verifier::reject_recursive_types(T)]
pub struct ExHeaplessVec<T, const N: usize>(heapless::Vec<T, N>);

/// The bytes that a reassembly buffer holds, in order.
pub uninterp spec fn held_bytes(v: heapless::Vec<u8, 32768>) -> Seq<u8>;

/// Relies on heapless::Vec::new: the new vector is empty.
#[verifier::external_body]
fn hv_new() -> (r: heapless::Vec<u8, 32768>)
    ensures
        held_bytes(r) == Seq::<u8>::empty(),
{
    heapless::Vec::new()
}

/// Relies on heapless::Vec::clear: every element is removed.
#[verifier::external_body]
fn hv_clear(v: &mut heapless::Vec<u8, 32768>)
    ensures
        held_bytes(*final(v)) == Seq::<u8>::empty(),
{
    v.clear()
}

/// Relies on heapless::Vec::extend_from_slice: when the slice fits in the
/// remaining capacity it is appended and `Ok` is returned; otherwise the
/// vector is left unchanged and `Err` is returned.
#[verifier::external_body]
fn hv_extend(v: &mut heapless::Vec<u8, 32768>, s: &[u8]) -> (r: Result<(), ()>)
    ensures
        held_bytes(*old(v)).len() + s@.len() <= 32768 ==> r is Ok && held_bytes(*final(v))
            == held_bytes(*old(v)) + s@,
        held_bytes(*old(v)).len() + s@.len() > 32768 ==> r is Err && held_bytes(*final(v))
            == held_bytes(*old(v)),
{
    v.extend_from_slice(s)
}

/// Relies on heapless::Vec::as_slice: the slice holds the vector's elements,
/// which are copied into a new `Vec`.
#[verifier::external_body]
fn hv_to_vec(v: &heapless::Vec<u8, 32768>) -> (r: Vec<u8>)
    ensures
        r@ == held_bytes(*v),
{
    v.as_slice().to_vec()
}

/// A byte buffer that never grows past `IMAGE_BUFFER_CAPACITY`.
#[derive(Debug)]
pub struct ImageBuffer {
    data: heapless::Vec<u8, 32768>,
}

impl View for ImageBuffer {
    type V = Seq<u8>;

    closed spec fn view(&self) -> Seq<u8> {
        held_bytes(self.data)
    }
}

impl ImageBuffer {
    pub fn new() -> (r: Self)
        ensures
            r@ == Seq::<u8>::empty(),
    {
        ImageBuffer { data: hv_new() }
    }

    pub fn clear(&mut self)
        ensures
            final(self)@ == Seq::<u8>::empty(),
    {
        hv_clear(&mut self.data);
    }

    /// Appends `s` when it fits; returns whether it did.
    pub fn append(&mut self, s: &[u8]) -> (r: bool)
        ensures
            r == (old(self)@.len() + s@.len() <= IMAGE_BUFFER_CAPACITY),
            r ==> final(self)@ == old(self)@ + s@,
            !r ==> final(self)@ == old(self)@,
    {
        hv_extend(&mut self.data, s).is_ok()
    }

    pub fn to_vec(&self) -> (r: Vec<u8>)
        ensures
            r@ == self@,
    {
        hv_to_vec(&self.data)
    }
}

} // verus!
