//! Fixed-capacity message text and decimal formatting.

use vstd::prelude::*;
use vstd::std_specs::cmp::PartialEqSpecImpl;
use vstd::string::StringSliceAdditionalSpecFns;

verus! {

/// Largest number of bytes one message text can hold.
pub const MAX_MESSAGE_LEN: usize = 64;

/// The ASCII code of the decimal digit `d`, for `0 <= d <= 9`.
pub open spec fn digit(d: int) -> u8 {
    (48 + d) as u8
}

/// The decimal digits of `n`, most significant first, without leading zeros.
pub open spec fn decimal_digits(n: nat) -> Seq<u8>
    decreases n,
{
    if n < 10 {
        seq![digit(n as int)]
    } else {
        decimal_digits(n / 10).push(digit((n % 10) as int))
    }
}

/// The decimal rendering of `v`: a minus sign for negative values, then the
/// digits of the magnitude.
pub open spec fn decimal(v: int) -> Seq<u8> {
    if v < 0 {
        seq![45u8] + decimal_digits((-v) as nat)
    } else {
        decimal_digits(v as nat)
    }
}

/// Ten to the power `n`.
pub open spec fn pow10(n: nat) -> nat
    decreases n,
{
    if n == 0 {
        1
    } else {
        10 * pow10((n - 1) as nat)
    }
}

/// A number below `10^k` has at most `k` digits (and at least one).
pub proof fn lemma_decimal_digits_len(n: nat, k: nat)
    requires
        k >= 1,
        n < pow10(k),
    ensures
        1 <= decimal_digits(n).len() <= k,
    decreases n,
{
    if n >= 10 {
        assert(pow10(1) == 10) by {
            reveal_with_fuel(pow10, 2);
        }
        assert(k >= 2);
        assert(pow10(k) == 10 * pow10((k - 1) as nat));
        lemma_decimal_digits_len(n / 10, (k - 1) as nat);
    }
}

/// The error of an append that would not fit: nothing was appended.
#[derive(Clone, Copy, Debug, PartialEq, Eq)]
pub struct TextOverflow;

/// A text of at most [`MAX_MESSAGE_LEN`] bytes, held in place without
/// allocation.
///
/// Two texts are equal where they hold the same bytes.
#[derive(Clone, Copy, Debug, Eq)]
pub struct MessageText {
    buf: [u8; MAX_MESSAGE_LEN],
    len: usize,
}

impl View for MessageText {
    type V = Seq<u8>;

    /// The bytes of the text, first to last.
    closed spec fn view(&self) -> Seq<u8> {
        self.buf@.subrange(0, self.len as int)
    }
}

impl PartialEq for MessageText {
    fn eq(&self, other: &Self) -> (same: bool) {
        proof {
            use_type_invariant(self);
            use_type_invariant(other);
        }
        if self.len != other.len {
            assert(self@.len() != other@.len());
            return false;
        }
        let mut i: usize = 0;
        while i < self.len
            invariant
                i <= self.len,
                self.len == other.len,
                self.len <= MAX_MESSAGE_LEN,
                forall|j: int| 0 <= j < i ==> self.buf[j] == other.buf[j],
            decreases self.len - i,
        {
            if self.buf[i] != other.buf[i] {
                assert(self@[i as int] != other@[i as int]);
                return false;
            }
            i = i + 1;
        }
        assert(self@ =~= other@);
        true
    }
}

impl PartialEqSpecImpl for MessageText {
    open spec fn obeys_eq_spec() -> bool {
        true
    }

    open spec fn eq_spec(&self, other: &Self) -> bool {
        self@ == other@
    }
}

impl MessageText {
    #[verifier::type_invariant]
    spec fn well_formed(self) -> bool {
        self.len <= MAX_MESSAGE_LEN
    }

    /// The empty text.
    pub fn new() -> (t: Self)
        ensures
            t@ == Seq::<u8>::empty(),
    {
        let t = MessageText { buf: [0u8; MAX_MESSAGE_LEN], len: 0 };
        assert(t@ =~= Seq::<u8>::empty());
        t
    }

    /// Number of bytes held.
    pub fn len(&self) -> (n: usize)
        ensures
            n == self@.len(),
            n <= MAX_MESSAGE_LEN,
    {
        proof {
            use_type_invariant(self);
        }
        self.len
    }

    /// Whether the text holds no byte.
    pub fn is_empty(&self) -> (b: bool)
        ensures
            b == (self@.len() == 0),
    {
        proof {
            use_type_invariant(self);
        }
        self.len == 0
    }

    /// Number of bytes that can still be appended.
    pub fn remaining(&self) -> (n: usize)
        ensures
            n == MAX_MESSAGE_LEN - self@.len(),
    {
        proof {
            use_type_invariant(self);
        }
        MAX_MESSAGE_LEN - self.len
    }

    /// The bytes of the text.
    pub fn as_bytes(&self) -> (s: &[u8])
        ensures
            s@ == self@,
    {
        proof {
            use_type_invariant(self);
        }
        vstd::slice::slice_subrange(self.buf.as_slice(), 0, self.len)
    }

    /// Appends one byte, or fails on a full text and leaves it as it was.
    pub fn push(&mut self, byte: u8) -> (r: Result<(), TextOverflow>)
        ensures
            r is Ok <==> old(self)@.len() < MAX_MESSAGE_LEN,
            r is Ok ==> final(self)@ == old(self)@.push(byte),
            r is Err ==> *final(self) == *old(self),
    {
        proof {
            use_type_invariant(&*self);
        }
        if self.len < MAX_MESSAGE_LEN {
            let mut buf = self.buf;
            buf[self.len] = byte;
            let len: usize = self.len + 1;
            *self = MessageText { buf, len };
            assert(self@ =~= old(self)@.push(byte));
            Ok(())
        } else {
            Err(TextOverflow)
        }
    }

    /// Appends all of `bytes`, or fails where they do not all fit and leaves
    /// the text as it was.
    pub fn push_bytes(&mut self, bytes: &[u8]) -> (r: Result<(), TextOverflow>)
        ensures
            r is Ok <==> old(self)@.len() + bytes@.len() <= MAX_MESSAGE_LEN,
            r is Ok ==> final(self)@ == old(self)@ + bytes@,
            r is Err ==> *final(self) == *old(self),
    {
        proof {
            use_type_invariant(&*self);
        }
        let count: usize = bytes.len();
        if count > MAX_MESSAGE_LEN - self.len {
            return Err(TextOverflow);
        }
        let start: usize = self.len;
        let mut buf = self.buf;
        let mut i: usize = 0;
        while i < count
            invariant
                i <= count,
                count == bytes@.len(),
                start + count <= MAX_MESSAGE_LEN,
                forall|j: int| 0 <= j < start ==> buf[j] == old(self).buf[j],
                forall|j: int| 0 <= j < i ==> buf[start + j] == bytes@[j],
            decreases count - i,
        {
            buf[start + i] = bytes[i];
            i = i + 1;
        }
        let len: usize = start + count;
        *self = MessageText { buf, len };
        assert(self@ =~= old(self)@ + bytes@);
        Ok(())
    }

    /// Appends the UTF-8 bytes of `s`, all or none.
    pub fn push_str(&mut self, s: &str) -> (r: Result<(), TextOverflow>)
        ensures
            r is Ok <==> old(self)@.len() + s.spec_bytes().len() <= MAX_MESSAGE_LEN,
            r is Ok ==> final(self)@ == old(self)@ + s.spec_bytes(),
            r is Err ==> *final(self) == *old(self),
    {
        self.push_bytes(s.as_bytes())
    }

    /// Appends the decimal rendering of `value`, all or none.
    pub fn push_decimal(&mut self, value: i32) -> (r: Result<(), TextOverflow>)
        ensures
            r is Ok <==> old(self)@.len() + decimal(value as int).len() <= MAX_MESSAGE_LEN,
            r is Ok ==> final(self)@ == old(self)@ + decimal(value as int),
            r is Err ==> *final(self) == *old(self),
    {
        let negative: bool = value < 0;
        let magnitude: u32 = if negative {
            (0 - (value as i64)) as u32
        } else {
            value as u32
        };
        // Digits are produced last to first, into the tail of `digits`,
        // behind one spare place for the sign.
        let mut digits: [u8; 11] = [0u8; 11];
        let mut start: usize = 10;
        digits[start] = 48 + (magnitude % 10) as u8;
        let mut rest: u32 = magnitude / 10;
        proof {
            reveal_with_fuel(pow10, 10);
            assert(rest < pow10(9));
            assert(digits@.subrange(10, 11) =~= seq![digit((magnitude % 10) as int)]);
        }
        while rest > 0
            invariant
                1 <= start <= 10,
                rest < pow10((start - 1) as nat),
                decimal_digits(magnitude as nat) == (if rest == 0 {
                    Seq::<u8>::empty()
                } else {
                    decimal_digits(rest as nat)
                }) + digits@.subrange(start as int, 11),
            decreases rest,
        {
            proof {
                assert(start >= 2) by {
                    if start == 1 {
                        assert(pow10(0) == 1);
                    }
                }
                assert(pow10((start - 1) as nat) == 10 * pow10((start - 2) as nat));
            }
            let ghost before = digits@;
            start = start - 1;
            digits[start] = 48 + (rest % 10) as u8;
            proof {
                assert(digits@.subrange(start as int, 11) =~= seq![digit((rest % 10) as int)]
                    + before.subrange(start + 1, 11));
            }
            rest = rest / 10;
        }
        if negative {
            let ghost before = digits@;
            start = start - 1;
            digits[start] = 45;
            proof {
                assert(digits@.subrange(start as int, 11) =~= seq![45u8] + before.subrange(
                    start + 1,
                    11,
                ));
            }
        }
        assert(digits@.subrange(start as int, 11) == decimal(value as int));
        self.push_bytes(vstd::slice::slice_subrange(digits.as_slice(), start, 11))
    }
}

} // verus!
