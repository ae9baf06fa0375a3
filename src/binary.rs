//! The encoding capability shared by every part of a module, and its generic
//! forms: bytes, counts, text, length-prefixed sequences and optional values.
use vstd::prelude::*;
use vstd::utf8::encode_utf8;
use crate::numvalue::{uleb, sleb, unsigned, signed};

verus! {

/// Why a value has no encoding.
#[derive(Debug, Clone, Copy, PartialEq, Eq, Structural)]
pub enum EncodeError {
    /// A sequence holds more items than a 32-bit count can state.
    LengthOverflow,
}

/// A value with a canonical encoding in the binary module format.
pub trait WriteContext {
    /// Whether every sequence inside the value has a count that fits in 32 bits.
    spec fn encodable(&self) -> bool;

    /// The bytes that stand for the value.
    spec fn wasm_bytes(&self) -> Seq<u8>;

    /// What a failed encoding leaves appended to the buffer, for the values
    /// of which this is stated.
    spec fn written_on_error(&self) -> Option<Seq<u8>>;

    /// Appends the encoding of the value to `w`.
    fn write(&self, w: &mut Vec<u8>) -> (r: Result<(), EncodeError>)
        ensures
            r is Ok <==> self.encodable(),
            r is Ok ==> final(w)@ == old(w)@ + self.wasm_bytes(),
            r is Err ==> (self.written_on_error() matches Some(b) ==> final(w)@ == old(w)@ + b),
    ;
}

/// The entry points of the encoder.
pub struct WASMBinary;

impl WASMBinary {
    /// Appends the encoding of `input` to `w`.
    pub fn write<T: WriteContext>(w: &mut Vec<u8>, input: &T) -> (r: Result<(), EncodeError>)
        ensures
            r is Ok <==> input.encodable(),
            r is Ok ==> final(w)@ == old(w)@ + input.wasm_bytes(),
            r is Err ==> (input.written_on_error() matches Some(b) ==> final(w)@ == old(w)@ + b),
    {
        input.write(w)
    }

    /// The encoding of `input`, as a fresh byte vector.
    pub fn as_bytes<T: WriteContext>(input: &T) -> (r: Result<Vec<u8>, EncodeError>)
        ensures
            r is Ok <==> input.encodable(),
            r matches Ok(b) ==> b@ == input.wasm_bytes(),
    {
        let mut out: Vec<u8> = Vec::new();
        match input.write(&mut out) {
            Ok(()) => {
                assert(out@ =~= input.wasm_bytes());
                Ok(out)
            },
            Err(e) => Err(e),
        }
    }
}

/// A byte stands for itself.
impl WriteContext for u8 {
    open spec fn written_on_error(&self) -> Option<Seq<u8>> {
        None
    }

    open spec fn encodable(&self) -> bool {
        true
    }

    open spec fn wasm_bytes(&self) -> Seq<u8> {
        seq![*self]
    }

    fn write(&self, w: &mut Vec<u8>) -> (r: Result<(), EncodeError>) {
        w.push(*self);
        Ok(())
    }
}

impl WriteContext for u32 {
    open spec fn written_on_error(&self) -> Option<Seq<u8>> {
        None
    }

    open spec fn encodable(&self) -> bool {
        true
    }

    open spec fn wasm_bytes(&self) -> Seq<u8> {
        uleb(*self as nat)
    }

    fn write(&self, w: &mut Vec<u8>) -> (r: Result<(), EncodeError>) {
        unsigned(w, *self as u64);
        Ok(())
    }
}

impl WriteContext for u64 {
    open spec fn written_on_error(&self) -> Option<Seq<u8>> {
        None
    }

    open spec fn encodable(&self) -> bool {
        true
    }

    open spec fn wasm_bytes(&self) -> Seq<u8> {
        uleb(*self as nat)
    }

    fn write(&self, w: &mut Vec<u8>) -> (r: Result<(), EncodeError>) {
        unsigned(w, *self);
        Ok(())
    }
}

impl WriteContext for i32 {
    open spec fn written_on_error(&self) -> Option<Seq<u8>> {
        None
    }

    open spec fn encodable(&self) -> bool {
        true
    }

    open spec fn wasm_bytes(&self) -> Seq<u8> {
        sleb(*self as int)
    }

    fn write(&self, w: &mut Vec<u8>) -> (r: Result<(), EncodeError>) {
        signed(w, *self as i64);
        Ok(())
    }
}

impl WriteContext for i64 {
    open spec fn written_on_error(&self) -> Option<Seq<u8>> {
        None
    }

    open spec fn encodable(&self) -> bool {
        true
    }

    open spec fn wasm_bytes(&self) -> Seq<u8> {
        sleb(*self as int)
    }

    fn write(&self, w: &mut Vec<u8>) -> (r: Result<(), EncodeError>) {
        signed(w, *self);
        Ok(())
    }
}

/// The concatenated encodings of the items of `s`, in order.
pub open spec fn seq_bytes<T: WriteContext>(s: Seq<T>) -> Seq<u8>
    decreases s.len(),
{
    if s.len() == 0 {
        Seq::empty()
    } else {
        seq_bytes(s.drop_last()) + s.last().wasm_bytes()
    }
}

/// A length-prefixed sequence: the count, then each item in order.
pub open spec fn vec_bytes<T: WriteContext>(s: Seq<T>) -> Seq<u8> {
    uleb(s.len()) + seq_bytes(s)
}

/// Whether every item of `s` is encodable.
pub open spec fn all_encodable<T: WriteContext>(s: Seq<T>) -> bool {
    forall|k: int| 0 <= k < s.len() ==> #[trigger] s[k].encodable()
}

/// A sequence is its count followed by each item in order.
impl<T: WriteContext> WriteContext for Vec<T> {
    /// An overlong sequence is refused before anything is written.
    open spec fn written_on_error(&self) -> Option<Seq<u8>> {
        if self.len() > u32::MAX {
            Some(Seq::empty())
        } else {
            None
        }
    }

    open spec fn encodable(&self) -> bool {
        self.len() <= u32::MAX && all_encodable(self@)
    }

    open spec fn wasm_bytes(&self) -> Seq<u8> {
        vec_bytes(self@)
    }

    fn write(&self, w: &mut Vec<u8>) -> (r: Result<(), EncodeError>) {
        let len = self.len();
        if len > u32::MAX as usize {
            assert(w@ =~= old(w)@ + Seq::<u8>::empty());
            return Err(EncodeError::LengthOverflow);
        }
        unsigned(w, len as u64);
        let ghost start = w@;
        let mut i: usize = 0;
        while i < len
            invariant
                len == self.len(),
                len <= u32::MAX,
                i <= len,
                start == old(w)@ + uleb(len as nat),
                w@ == start + seq_bytes(self@.subrange(0, i as int)),
                forall|k: int| 0 <= k < i ==> #[trigger] self@[k].encodable(),
            decreases len - i,
        {
            match self[i].write(w) {
                Ok(()) => {},
                Err(e) => {
                    return Err(e);
                },
            }
            assert(self@.subrange(0, i + 1).drop_last() =~= self@.subrange(0, i as int));
            i = i + 1;
        }
        assert(self@.subrange(0, len as int) =~= self@);
        Ok(())
    }
}

/// An absent value has no bytes; a present one is its contents alone.
impl<T: WriteContext> WriteContext for Option<T> {
    open spec fn written_on_error(&self) -> Option<Seq<u8>> {
        match self {
            Some(x) => x.written_on_error(),
            None => None,
        }
    }

    open spec fn encodable(&self) -> bool {
        match self {
            Some(x) => x.encodable(),
            None => true,
        }
    }

    open spec fn wasm_bytes(&self) -> Seq<u8> {
        match self {
            Some(x) => x.wasm_bytes(),
            None => Seq::empty(),
        }
    }

    fn write(&self, w: &mut Vec<u8>) -> (r: Result<(), EncodeError>) {
        match self {
            Some(x) => x.write(w),
            None => {
                assert(w@ =~= old(w)@ + Seq::<u8>::empty());
                Ok(())
            },
        }
    }
}

/// The UTF-8 bytes of a text.
pub open spec fn text_bytes(s: Seq<char>) -> Seq<u8> {
    encode_utf8(s)
}

/// A text is its UTF-8 bytes as a length-prefixed sequence.
impl WriteContext for String {
    /// An overlong text is refused before anything is written.
    open spec fn written_on_error(&self) -> Option<Seq<u8>> {
        if text_bytes(self@).len() > u32::MAX {
            Some(Seq::empty())
        } else {
            None
        }
    }

    open spec fn encodable(&self) -> bool {
        text_bytes(self@).len() <= u32::MAX
    }

    open spec fn wasm_bytes(&self) -> Seq<u8> {
        uleb(text_bytes(self@).len()) + text_bytes(self@)
    }

    fn write(&self, w: &mut Vec<u8>) -> (r: Result<(), EncodeError>) {
        let bytes = self.as_str().as_bytes();
        let len = bytes.len();
        if len > u32::MAX as usize {
            assert(w@ =~= old(w)@ + Seq::<u8>::empty());
            return Err(EncodeError::LengthOverflow);
        }
        unsigned(w, len as u64);
        let ghost start = w@;
        let mut i: usize = 0;
        while i < len
            invariant
                len == bytes@.len(),
                i <= len,
                w@ == start + bytes@.subrange(0, i as int),
            decreases len - i,
        {
            w.push(bytes[i]);
            i = i + 1;
            assert(w@ =~= start + bytes@.subrange(0, i as int));
        }
        assert(bytes@.subrange(0, len as int) =~= bytes@);
        Ok(())
    }
}

} // verus!
