//! Texts in buffers of fixed capacity.

use vstd::prelude::*;
use vstd::slice::slice_to_vec;
use vstd::string::StringSliceAdditionalSpecFns;
use crate::errors::ErrorCode;
use crate::errors::Field;

verus! {

/// The most bytes of a profile's display name.
pub const USERNAME_LENGTH: usize = 32;

/// The most bytes of a post's content location.
pub const CONTENT_URI_LENGTH: usize = 200;

/// The most bytes of a post's description.
pub const DESCRIPTION_LENGTH: usize = 500;

/// The most bytes of a tweet's topic and text together.
pub const TWEET_LENGTH: usize = 280;

/// The most bytes of a comment.
pub const COMMENT_LENGTH: usize = 500;

/// A buffer of fixed capacity with the number of its leading bytes that are text.
pub struct PackedTextView {
    pub bytes: Seq<u8>,
    pub length: nat,
}

impl PackedTextView {
    /// The size of the buffer.
    pub open spec fn capacity(self) -> nat {
        self.bytes.len()
    }

    /// The bytes that are text.
    pub open spec fn text(self) -> Seq<u8> {
        self.bytes.subrange(0, self.length as int)
    }
}

/// `text` at the left of a buffer of `capacity` bytes, zeros behind it.
pub open spec fn packed(text: Seq<u8>, capacity: nat) -> PackedTextView {
    PackedTextView {
        bytes: Seq::new(capacity, |i: int| if i < text.len() { text[i] } else { 0u8 }),
        length: text.len(),
    }
}

/// What packing `text` into a field of `capacity` bytes gives: the packed
/// buffer, or the error that names the field and its limit.
pub open spec fn validated(text: Seq<u8>, field: Field, capacity: usize) -> Result<
    PackedTextView,
    ErrorCode,
> {
    if text.len() <= capacity {
        Ok(packed(text, capacity as nat))
    } else {
        Err(ErrorCode::ValidationError { field, limit: capacity })
    }
}

/// A text packed into a buffer of fixed capacity: the text's bytes first, then
/// zeros, and the text's length beside them.
#[derive(Debug)]
pub struct PackedText {
    bytes: Vec<u8>,
    length: usize,
}

impl View for PackedText {
    type V = PackedTextView;

    closed spec fn view(&self) -> PackedTextView {
        PackedTextView { bytes: self.bytes@, length: self.length as nat }
    }
}

impl PackedText {
    #[verifier::type_invariant]
    spec fn padded(&self) -> bool {
        &&& self.length <= self.bytes@.len()
        &&& forall|i: int| self.length <= i < self.bytes@.len() ==> self.bytes@[i] == 0u8
    }

    /// The whole buffer, padding included.
    pub fn bytes(&self) -> (r: &Vec<u8>)
        ensures
            r@ == self@.bytes,
    {
        &self.bytes
    }

    /// The number of leading bytes that are text. Every byte behind them is zero.
    pub fn length(&self) -> (r: usize)
        ensures
            r == self@.length,
            r <= self@.capacity(),
            self@ == packed(self@.text(), self@.capacity()),
    {
        proof {
            use_type_invariant(self);
            assert(self@.bytes =~= packed(self@.text(), self@.capacity()).bytes);
        }
        self.length
    }

    /// The size of the buffer.
    pub fn capacity(&self) -> (r: usize)
        ensures
            r == self@.capacity(),
    {
        self.bytes.len()
    }

    /// The text's bytes, without the padding.
    pub fn text(&self) -> (r: Vec<u8>)
        ensures
            r@ == self@.text(),
    {
        proof {
            use_type_invariant(self);
        }
        let mut out: Vec<u8> = Vec::new();
        let mut i: usize = 0;
        while i < self.length
            invariant
                i <= self.length <= self.bytes@.len(),
                out@ == self.bytes@.subrange(0, i as int),
            decreases self.length - i,
        {
            out.push(self.bytes[i]);
            i += 1;
        }
        out
    }
}

impl Clone for PackedText {
    /// A second buffer with the same bytes and the same length.
    fn clone(&self) -> (r: PackedText)
        ensures
            r@ == self@,
    {
        proof {
            use_type_invariant(self);
        }
        PackedText { bytes: slice_to_vec(self.bytes.as_slice()), length: self.length }
    }
}

/// Packs `bytes` into a buffer of `capacity` bytes for `field`. Nothing is
/// trimmed or normalised: bytes that do not fit are an error.
pub fn pack(bytes: &[u8], field: Field, capacity: usize) -> (r: Result<PackedText, ErrorCode>)
    ensures
        match r {
            Ok(p) => validated(bytes@, field, capacity) == Ok::<PackedTextView, ErrorCode>(p@),
            Err(e) => validated(bytes@, field, capacity) == Err::<PackedTextView, ErrorCode>(e),
        },
{
    let n: usize = bytes.len();
    if n > capacity {
        return Err(ErrorCode::ValidationError { field, limit: capacity });
    }
    let mut out: Vec<u8> = Vec::new();
    let mut i: usize = 0;
    while i < capacity
        invariant
            i <= capacity,
            n == bytes@.len(),
            n <= capacity,
            out@.len() == i,
            forall|j: int| 0 <= j < i ==> out@[j] == (if j < n { bytes@[j] } else { 0u8 }),
        decreases capacity - i,
    {
        let b: u8 = if i < n { bytes[i] } else { 0u8 };
        out.push(b);
        i += 1;
    }
    assert(out@ =~= packed(bytes@, capacity as nat).bytes);
    Ok(PackedText { bytes: out, length: n })
}

/// Checks a text against the capacity of its field, in bytes and not in
/// characters, and packs it.
pub fn validate(text: &str, field: Field, capacity: usize) -> (r: Result<PackedText, ErrorCode>)
    ensures
        match r {
            Ok(p) => validated(text.spec_bytes(), field, capacity) == Ok::<
                PackedTextView,
                ErrorCode,
            >(p@),
            Err(e) => validated(text.spec_bytes(), field, capacity) == Err::<
                PackedTextView,
                ErrorCode,
            >(e),
        },
{
    pack(text.as_bytes(), field, capacity)
}

/// A text of at most `capacity` bytes is accepted, and in its buffer of
/// `capacity` bytes the text's bytes come first and every byte behind them is
/// zero.
pub proof fn fitting_text_is_packed(text: Seq<u8>, field: Field, capacity: usize)
    requires
        text.len() <= capacity,
    ensures
        validated(text, field, capacity) is Ok,
        validated(text, field, capacity).unwrap().bytes.len() == capacity,
        validated(text, field, capacity).unwrap().length == text.len(),
        validated(text, field, capacity).unwrap().text() == text,
        forall|i: int|
            text.len() <= i < capacity ==> #[trigger] validated(
                text,
                field,
                capacity,
            ).unwrap().bytes[i] == 0u8,
{
}

/// A text of more than `capacity` bytes is rejected, with the field and the
/// limit in the error.
pub proof fn long_text_is_rejected(text: Seq<u8>, field: Field, capacity: usize)
    requires
        text.len() > capacity,
    ensures
        validated(text, field, capacity) == Err::<PackedTextView, ErrorCode>(
            (ErrorCode::ValidationError { field, limit: capacity }),
        ),
{
}

} // verus!
