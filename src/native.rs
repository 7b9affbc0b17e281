use vstd::prelude::*;

verus! {

/// An owned filesystem path in native form: raw bytes, possibly not valid UTF-8.
#[derive(Debug)]
pub struct NativePath {
    bytes: Vec<u8>,
}

/// An owned native string (an environment value, an argument): raw bytes,
/// possibly not valid UTF-8.
#[derive(Debug)]
pub struct NativeString {
    bytes: Vec<u8>,
}

impl View for NativePath {
    type V = Seq<u8>;

    closed spec fn view(&self) -> Seq<u8> {
        self.bytes@
    }
}

impl View for NativeString {
    type V = Seq<u8>;

    closed spec fn view(&self) -> Seq<u8> {
        self.bytes@
    }
}

impl NativePath {
    /// A path holding exactly the given bytes.
    pub fn from_bytes(bytes: Vec<u8>) -> (r: NativePath)
        ensures
            r@ == bytes@,
    {
        NativePath { bytes }
    }

    /// The path's bytes.
    pub fn as_bytes(&self) -> (r: &[u8])
        ensures
            r@ == self@,
    {
        self.bytes.as_slice()
    }
}

impl NativeString {
    /// A native string holding exactly the given bytes.
    pub fn from_bytes(bytes: Vec<u8>) -> (r: NativeString)
        ensures
            r@ == bytes@,
    {
        NativeString { bytes }
    }

    /// The native string's bytes.
    pub fn as_bytes(&self) -> (r: &[u8])
        ensures
            r@ == self@,
    {
        self.bytes.as_slice()
    }
}

impl PartialEq for NativePath {
    fn eq(&self, other: &NativePath) -> (r: bool)
        ensures
            r == (self@ == other@),
    {
        bytes_equal(self.bytes.as_slice(), other.bytes.as_slice())
    }
}

impl vstd::std_specs::cmp::PartialEqSpecImpl for NativePath {
    open spec fn obeys_eq_spec() -> bool {
        true
    }

    open spec fn eq_spec(&self, other: &NativePath) -> bool {
        self@ == other@
    }
}

impl Eq for NativePath {}

impl PartialEq for NativeString {
    fn eq(&self, other: &NativeString) -> (r: bool)
        ensures
            r == (self@ == other@),
    {
        bytes_equal(self.bytes.as_slice(), other.bytes.as_slice())
    }
}

impl vstd::std_specs::cmp::PartialEqSpecImpl for NativeString {
    open spec fn obeys_eq_spec() -> bool {
        true
    }

    open spec fn eq_spec(&self, other: &NativeString) -> bool {
        self@ == other@
    }
}

impl Eq for NativeString {}

/// Byte-wise comparison of two buffers.
fn bytes_equal(a: &[u8], b: &[u8]) -> (r: bool)
    ensures
        r == (a@ == b@),
{
    if a.len() != b.len() {
        return false;
    }
    let mut i: usize = 0;
    while i < a.len()
        invariant
            a@.len() == b@.len(),
            0 <= i <= a@.len(),
            forall|k: int| 0 <= k < i ==> a@[k] == b@[k],
        decreases a@.len() - i,
    {
        if a[i] != b[i] {
            return false;
        }
        i = i + 1;
    }
    assert(a@ =~= b@);
    true
}

} // verus!
