use vstd::prelude::*;

verus! {

/// Number of bytes in the encoding of a `u64`.
pub const U64_BYTES: usize = 8;

/// The byte at index `i` (least significant first) of `value`.
pub open spec fn byte_of(value: u64, i: nat) -> u8 {
    ((value >> (8 * i) as u64) & 0xff) as u8
}

/// The value of the first `n` bytes of `s` starting at `pos`, least significant first,
/// combined with bitwise or.
pub open spec fn le_prefix(s: Seq<u8>, pos: int, n: nat) -> u64
    decreases n,
{
    if n == 0 {
        0
    } else {
        le_prefix(s, pos, (n - 1) as nat) | ((s[pos + n - 1] as u64) << (8 * (n - 1)) as u64)
    }
}

/// The `u64` stored least significant byte first in `s[pos .. pos + 8]`.
pub open spec fn le_u64_at(s: Seq<u8>, pos: int) -> u64 {
    le_prefix(s, pos, 8)
}

/// `s` with the eight bytes of `value`, least significant first, written at `pos`.
pub open spec fn with_u64_at(s: Seq<u8>, pos: int, value: u64) -> Seq<u8> {
    Seq::new(
        s.len(),
        |j: int|
            if pos <= j < pos + 8 {
                byte_of(value, (j - pos) as nat)
            } else {
                s[j]
            },
    )
}

/// Reading back a `u64` written at `pos` gives the value written, whatever the buffer held.
pub proof fn lemma_u64_round_trip(s: Seq<u8>, pos: int, value: u64)
    requires
        0 <= pos,
        pos + 8 <= s.len(),
    ensures
        le_u64_at(with_u64_at(s, pos, value), pos) == value,
{
    let w = with_u64_at(s, pos, value);
    reveal_with_fuel(le_prefix, 9);
    let v = value;
    assert(w[pos] == byte_of(v, 0));
    assert(w[pos + 1] == byte_of(v, 1));
    assert(w[pos + 2] == byte_of(v, 2));
    assert(w[pos + 3] == byte_of(v, 3));
    assert(w[pos + 4] == byte_of(v, 4));
    assert(w[pos + 5] == byte_of(v, 5));
    assert(w[pos + 6] == byte_of(v, 6));
    assert(w[pos + 7] == byte_of(v, 7));
    assert(v == 0u64 | ((((v >> 0u64) & 0xff) as u8) as u64) << 0u64 | ((((v >> 8u64) & 0xff) as u8)
        as u64) << 8u64 | ((((v >> 16u64) & 0xff) as u8) as u64) << 16u64 | ((((v >> 24u64)
        & 0xff) as u8) as u64) << 24u64 | ((((v >> 32u64) & 0xff) as u8) as u64) << 32u64 | ((((v
        >> 40u64) & 0xff) as u8) as u64) << 40u64 | ((((v >> 48u64) & 0xff) as u8) as u64)
        << 48u64 | ((((v >> 56u64) & 0xff) as u8) as u64) << 56u64) by (bit_vector);
}

/// Fixed-width access to a `u64` inside a byte buffer.
pub trait Bytes {
    /// The buffer's contents.
    spec fn bytes(&self) -> Seq<u8>;

    /// Writes `value` at `pos`, least significant byte first.
    fn write_u64(&mut self, pos: usize, value: u64)
        requires
            pos + 8 <= old(self).bytes().len(),
        ensures
            final(self).bytes() == with_u64_at(old(self).bytes(), pos as int, value),
    ;

    /// Reads the `u64` stored at `pos`, least significant byte first.
    fn read_u64(&self, pos: usize) -> (r: u64)
        requires
            pos + 8 <= self.bytes().len(),
        ensures
            r == le_u64_at(self.bytes(), pos as int),
    ;
}

impl Bytes for Vec<u8> {
    open spec fn bytes(&self) -> Seq<u8> {
        self@
    }

    fn write_u64(&mut self, pos: usize, value: u64) {
        let len = self.len();
        let mut i: usize = 0;
        while i < U64_BYTES
            invariant
                i <= 8,
                len == self@.len(),
                pos + 8 <= old(self)@.len(),
                self@.len() == old(self)@.len(),
                forall|j: int|
                    0 <= j < self@.len() ==> #[trigger] self@[j] == if pos <= j < pos + i {
                        byte_of(value, (j - pos) as nat)
                    } else {
                        old(self)@[j]
                    },
            decreases 8 - i,
        {
            let shifted = value >> (i as u64 * 8);
            assert(shifted & 0xff <= 0xff) by (bit_vector);
            self.set(pos + i, (shifted & 0xff) as u8);
            i = i + 1;
        }
        assert(self@ =~= with_u64_at(old(self)@, pos as int, value));
    }

    fn read_u64(&self, pos: usize) -> (r: u64) {
        let len = self.len();
        let mut result: u64 = 0;
        let mut i: usize = 0;
        while i < U64_BYTES
            invariant
                i <= 8,
                len == self@.len(),
                pos + 8 <= self@.len(),
                result == le_prefix(self@, pos as int, i as nat),
            decreases 8 - i,
        {
            result = result | ((self[pos + i] as u64) << (i as u64 * 8));
            i = i + 1;
        }
        result
    }
}

} // verus!
