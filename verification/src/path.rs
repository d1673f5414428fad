//! Native path values and their ownership shapes.

use vstd::prelude::*;

verus! {

/// A native filesystem path value: an ordered sequence of platform path
/// bytes. No encoding is assumed: on the permissive platform this library
/// models, any byte may occur, including the zero byte and sequences that
/// are not valid in any text encoding.
#[derive(Debug)]
pub struct NativePath {
    pub bytes: Vec<u8>,
}

impl View for NativePath {
    type V = Seq<u8>;

    open spec fn view(&self) -> Seq<u8> {
        self.bytes@
    }
}

impl NativePath {
    /// Construct a path value from raw platform bytes.
    pub fn new(bytes: Vec<u8>) -> (p: NativePath)
        ensures
            p@ == bytes@,
    {
        NativePath { bytes }
    }

    /// The raw platform bytes of the path.
    pub fn as_bytes(&self) -> (s: &[u8])
        ensures
            s@ == self@,
    {
        self.bytes.as_slice()
    }
}

impl Clone for NativePath {
    fn clone(&self) -> (p: NativePath)
        ensures
            p@ == self@,
    {
        NativePath { bytes: vstd::slice::slice_to_vec(self.bytes.as_slice()) }
    }
}

/// Byte-wise equality of two buffers.
fn bytes_equal(a: &Vec<u8>, b: &Vec<u8>) -> (r: bool)
    ensures
        r == (a@ == b@),
{
    if a.len() != b.len() {
        return false;
    }
    let mut i: usize = 0;
    while i < a.len()
        invariant
            i <= a@.len(),
            a@.len() == b@.len(),
            forall|j: int| 0 <= j < i ==> a@[j] == b@[j],
        decreases a@.len() - i,
    {
        if a[i] != b[i] {
            return false;
        }
        i = i + 1;
    }
    proof {
        assert(a@ =~= b@);
    }
    true
}

impl PartialEq for NativePath {
    fn eq(&self, other: &NativePath) -> (r: bool) {
        bytes_equal(&self.bytes, &other.bytes)
    }
}

impl vstd::std_specs::cmp::PartialEqSpecImpl for NativePath {
    open spec fn obeys_eq_spec() -> bool {
        true
    }

    open spec fn eq_spec(&self, other: &NativePath) -> bool {
        self@ == other@
    }
}

/// A copy-on-write path value: either a borrowed view of a path value or
/// an owned one, read through one uniform interface.
#[derive(Debug)]
pub enum PathCow<'a> {
    Borrowed(&'a NativePath),
    Owned(NativePath),
}

impl<'a> View for PathCow<'a> {
    type V = Seq<u8>;

    open spec fn view(&self) -> Seq<u8> {
        match *self {
            PathCow::Borrowed(p) => p@,
            PathCow::Owned(p) => p@,
        }
    }
}

impl<'a> PathCow<'a> {
    /// The borrowed view both variants expose; every ownership shape
    /// dereferences into this view before encoding.
    pub fn as_path(&self) -> (p: &NativePath)
        ensures
            p@ == self@,
    {
        match self {
            PathCow::Borrowed(p) => p,
            PathCow::Owned(p) => p,
        }
    }
}

} // verus!
