//! Names of kernel objects: fixed arrays of bytes, padded with zeros.

use vstd::prelude::*;
use crate::ffi::RT_NAME_MAX;
use vstd::string::StringSliceAdditionalSpecFns;

verus! {

/// The name of a kernel object, owned.
#[derive(Clone, Copy)]
pub struct RtName {
    buf: [u8; 8],
}

impl RtName {
    /// The bytes of the name.
    pub closed spec fn bytes(&self) -> Seq<u8> {
        self.buf@
    }

    /// The name that stands for a text: its first bytes, as many as a name
    /// holds, and zeros behind them where the text is shorter.
    pub open spec fn encode(text: Seq<u8>) -> Seq<u8> {
        Seq::new(
            RT_NAME_MAX as nat,
            |i: int|
                if i < text.len() {
                    text[i]
                } else {
                    0u8
                },
        )
    }

    pub fn new(buf: [u8; 8]) -> (name: Self)
        ensures
            name.bytes() == buf@,
    {
        Self { buf }
    }

    #[inline]
    pub fn as_array_str(&self) -> (bytes: &[u8])
        ensures
            bytes@ == self.bytes(),
    {
        &self.buf
    }

    #[inline]
    pub fn as_mut_array_str(&mut self) -> (bytes: &mut [u8])
        ensures
            bytes@ == old(self).bytes(),
            final(bytes)@ == final(self).bytes(),
    {
        &mut self.buf
    }
}

impl Default for RtName {
    fn default() -> (name: Self)
        ensures
            name.bytes() == RtName::encode(Seq::empty()),
    {
        let name = RtName { buf: [0u8; 8] };
        assert(name.bytes() =~= RtName::encode(Seq::empty()));
        name
    }
}

impl From<&str> for RtName {
    /// Encodes a text as a name; what does not fit is cut off.
    fn from(s: &str) -> (name: Self)
        ensures
            name.bytes() == RtName::encode(s.spec_bytes()),
    {
        let mut buf = [0u8; 8];
        let src = s.as_bytes();
        let len: usize = if src.len() < RT_NAME_MAX { src.len() } else { RT_NAME_MAX };
        let mut i: usize = 0;
        while i < len
            invariant
                i <= len <= RT_NAME_MAX,
                len <= src@.len(),
                forall|j: int| 0 <= j < i ==> buf@[j] == src@[j],
                forall|j: int| i <= j < RT_NAME_MAX ==> buf@[j] == 0,
            decreases len - i,
        {
            buf[i] = src[i];
            i += 1;
        }
        let name = RtName { buf };
        proof {
            assert(name.bytes() =~= RtName::encode(s.spec_bytes()));
            let chosen = choose|name: RtName| name.bytes() == RtName::encode(s.spec_bytes());
            assert(chosen.buf@ == name.buf@);
            assert(chosen.buf =~= name.buf);
        }
        name
    }
}

impl vstd::std_specs::convert::FromSpecImpl<&str> for RtName {
    open spec fn obeys_from_spec() -> bool {
        true
    }

    closed spec fn from_spec(s: &str) -> Self {
        choose|name: RtName| name.bytes() == RtName::encode(s.spec_bytes())
    }
}

/// The name of a kernel object, borrowed from the object.
pub struct RtNameRef<'a> {
    name: &'a [u8; 8],
}

impl<'a> RtNameRef<'a> {
    /// The bytes of the name.
    pub closed spec fn bytes(&self) -> Seq<u8> {
        self.name@
    }

    pub fn new(name: &'a [u8; 8]) -> (name_ref: Self)
        ensures
            name_ref.bytes() == name@,
    {
        Self { name }
    }

    /// The bytes of the name, zeros at the end included.
    pub fn as_bytes(&self) -> (bytes: &'a [u8])
        ensures
            bytes@ == self.bytes(),
    {
        self.name
    }
}

impl<'a> From<&'a [u8; 8]> for RtNameRef<'a> {
    #[inline]
    fn from(name: &'a [u8; 8]) -> (name_ref: Self) {
        Self { name }
    }
}

impl<'a> vstd::std_specs::convert::FromSpecImpl<&'a [u8; 8]> for RtNameRef<'a> {
    open spec fn obeys_from_spec() -> bool {
        true
    }

    closed spec fn from_spec(name: &'a [u8; 8]) -> Self {
        RtNameRef { name }
    }
}

} // verus!
