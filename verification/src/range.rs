//! Logical byte ranges: the entries of the list that the runtime hands to its
//! writer. An entry is a real span of memory, or padding that stands for a
//! run of zero bytes without any memory behind it.

use vstd::prelude::*;

verus! {

/// The number of bytes in the zero-filled scratch chunk from which padding is emitted.
pub const ZERO_CHUNK_LEN: usize = 16;

/// The mathematical content of a [`ByteRange`].
pub struct ByteRangeView {
    /// The backing bytes of a real range; `None` for padding.
    pub data: Option<Seq<u8>>,
    /// The size of one element in bytes.
    pub element_size: nat,
    /// The number of elements.
    pub element_count: nat,
    /// The runtime's flag on padding; padding is zero-filled whatever it says.
    pub use_zero_padding: bool,
}

impl ByteRangeView {
    /// The number of bytes that the range contributes to the stream.
    pub open spec fn len(self) -> nat {
        self.element_size * self.element_count
    }

    /// A real range is backed by exactly `len()` bytes, and `len()` fits a machine word.
    pub open spec fn wf(self) -> bool {
        &&& self.len() <= usize::MAX
        &&& self.data matches Some(d) ==> d.len() == self.len()
    }

    /// The bytes that the range contributes to the stream.
    pub open spec fn bytes(self) -> Seq<u8> {
        match self.data {
            Some(d) => d,
            None => zeros(self.len()),
        }
    }

    /// The chunks in which the range reaches the sink: a real range whole,
    /// padding in scratch-sized pieces, an empty range not at all.
    pub open spec fn chunks(self) -> Seq<Seq<u8>> {
        match self.data {
            Some(d) => if d.len() == 0 {
                Seq::empty()
            } else {
                seq![d]
            },
            None => zero_chunks(self.len()),
        }
    }
}

/// `n` zero bytes.
pub open spec fn zeros(n: nat) -> Seq<u8> {
    Seq::new(n, |i: int| 0u8)
}

/// The number of scratch-sized pieces that `n` bytes of padding take.
pub open spec fn zero_chunk_count(n: nat) -> nat {
    ((n + ZERO_CHUNK_LEN - 1) / (ZERO_CHUNK_LEN as int)) as nat
}

/// `n` bytes of padding cut into pieces: each full but, where `n` is no
/// multiple of the scratch size, the last.
pub open spec fn zero_chunks(n: nat) -> Seq<Seq<u8>> {
    Seq::new(
        zero_chunk_count(n),
        |i: int|
            if n - i * ZERO_CHUNK_LEN < ZERO_CHUNK_LEN {
                zeros((n - i * ZERO_CHUNK_LEN) as nat)
            } else {
                zeros(ZERO_CHUNK_LEN as nat)
            },
    )
}

/// One entry of the list that the runtime hands to its writer: either a real
/// span of memory, or a run of padding that has no memory behind it.
#[derive(Clone, Copy, Debug)]
pub struct ByteRange<'a> {
    data: Option<&'a [u8]>,
    elm_size: usize,
    num_elm: usize,
    use_zero_padding: bool,
}

impl<'a> View for ByteRange<'a> {
    type V = ByteRangeView;

    closed spec fn view(&self) -> ByteRangeView {
        ByteRangeView {
            data: match self.data {
                Some(d) => Some(d@),
                None => None,
            },
            element_size: self.elm_size as nat,
            element_count: self.num_elm as nat,
            use_zero_padding: self.use_zero_padding,
        }
    }
}

impl<'a> ByteRange<'a> {
    #[verifier::type_invariant]
    closed spec fn inv(&self) -> bool {
        self@.wf()
    }

    /// A real range of `num_elm` elements of `elm_size` bytes each, backed by
    /// `data`. There is such a range exactly when `data` has that many bytes.
    pub fn backed(data: &'a [u8], elm_size: usize, num_elm: usize, use_zero_padding: bool) -> (res:
        Option<Self>)
        ensures
            res is Some <==> data@.len() == elm_size * num_elm,
            res matches Some(r) ==> r@ == (ByteRangeView {
                data: Some(data@),
                element_size: elm_size as nat,
                element_count: num_elm as nat,
                use_zero_padding,
            }) && r@.wf(),
    {
        let backing: usize = data.len();
        match elm_size.checked_mul(num_elm) {
            Some(len) => {
                if len == backing {
                    Some(ByteRange { data: Some(data), elm_size, num_elm, use_zero_padding })
                } else {
                    None
                }
            },
            None => None,
        }
    }

    /// The number of bytes that the range contributes to the stream.
    pub fn len(&self) -> (n: usize)
        ensures
            n == self@.len(),
            self@.wf(),
    {
        proof {
            use_type_invariant(self);
        }
        self.elm_size * self.num_elm
    }

    /// The backing bytes of a real range; `None` for padding.
    pub fn data(&self) -> (d: Option<&'a [u8]>)
        ensures
            d is Some <==> self@.data is Some,
            d matches Some(bytes) ==> self@.data == Some(bytes@),
    {
        self.data
    }

    /// The size of one element in bytes.
    pub fn elm_size(&self) -> (n: usize)
        ensures
            n == self@.element_size,
    {
        self.elm_size
    }

    /// The number of elements.
    pub fn num_elm(&self) -> (n: usize)
        ensures
            n == self@.element_count,
    {
        self.num_elm
    }

    /// The runtime's flag on padding.
    pub fn use_zero_padding(&self) -> (flag: bool)
        ensures
            flag == self@.use_zero_padding,
    {
        self.use_zero_padding
    }

    /// Padding of `num_elm` elements of `elm_size` bytes each. There is such
    /// a range exactly when its length fits a machine word.
    pub fn padding(elm_size: usize, num_elm: usize, use_zero_padding: bool) -> (res: Option<Self>)
        ensures
            res is Some <==> elm_size * num_elm <= usize::MAX,
            res matches Some(r) ==> r@ == (ByteRangeView {
                data: None,
                element_size: elm_size as nat,
                element_count: num_elm as nat,
                use_zero_padding,
            }) && r@.wf(),
    {
        match elm_size.checked_mul(num_elm) {
            Some(_) => Some(ByteRange { data: None, elm_size, num_elm, use_zero_padding }),
            None => None,
        }
    }
}

} // verus!
