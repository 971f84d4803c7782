//! The frame decoder: from the eleven bits that a keyboard clocks out to
//! the byte that they carry.
//!
//! A frame is sent least significant bit first: a start bit that is clear,
//! eight data bits, a parity bit that makes the number of set bits among
//! data and parity odd, and a stop bit that is set.

use vstd::prelude::*;
use crate::types::Error;

verus! {

/// The number of bits in a frame.
pub const KEYCODE_BITS: u8 = 11;

/// Bit `offset` of a word, counted from the least significant.
pub open spec fn bit_at(word: u16, offset: u16) -> bool {
    (word >> offset) & 1 != 0
}

/// The lowest `n` bits of a word, in the order in which they are sent.
pub open spec fn word_bits(word: u16, n: nat) -> Seq<bool> {
    Seq::new(n, |i: int| bit_at(word, i as u16))
}

/// A bit as a number.
pub open spec fn bit_value(bit: bool) -> nat {
    if bit {
        1
    } else {
        0
    }
}

/// The byte that a frame carries: the bits at offsets 1 to 8, the first of
/// them the least significant.
pub open spec fn frame_data(bits: Seq<bool>) -> u8
    recommends
        bits.len() == 11,
{
    (bit_value(bits[1]) + 2 * bit_value(bits[2]) + 4 * bit_value(bits[3]) + 8 * bit_value(bits[4])
        + 16 * bit_value(bits[5]) + 32 * bit_value(bits[6]) + 64 * bit_value(bits[7]) + 128
        * bit_value(bits[8])) as u8
}

/// How many of the data bits of a frame are set.
pub open spec fn frame_ones(bits: Seq<bool>) -> nat
    recommends
        bits.len() == 11,
{
    bit_value(bits[1]) + bit_value(bits[2]) + bit_value(bits[3]) + bit_value(bits[4]) + bit_value(
        bits[5],
    ) + bit_value(bits[6]) + bit_value(bits[7]) + bit_value(bits[8])
}

/// The parity bit that a frame with these data bits must carry: set where
/// the number of set data bits is even.
pub open spec fn frame_parity(bits: Seq<bool>) -> bool
    recommends
        bits.len() == 11,
{
    frame_ones(bits) % 2 == 0
}

/// What a complete frame decodes to. The start bit is looked at first,
/// then the stop bit, then the parity.
pub open spec fn frame_checked(bits: Seq<bool>) -> Result<u8, Error>
    recommends
        bits.len() == 11,
{
    if bits[0] {
        Err(Error::BadStartBit)
    } else if !bits[10] {
        Err(Error::BadStopBit)
    } else if bits[9] != frame_parity(bits) {
        Err(Error::ParityError)
    } else {
        Ok(frame_data(bits))
    }
}

/// The bits that a decoder holds after one more bit: the eleventh bit
/// completes a frame and empties the decoder.
pub open spec fn bits_after(held: Seq<bool>, bit: bool) -> Seq<bool> {
    if held.len() < 10 {
        held.push(bit)
    } else {
        Seq::empty()
    }
}

/// What a decoder answers to one more bit: nothing yet before the
/// eleventh, then what the frame decodes to.
pub open spec fn bit_outcome(held: Seq<bool>, bit: bool) -> Result<Option<u8>, Error> {
    if held.len() < 10 {
        Ok(None)
    } else {
        match frame_checked(held.push(bit)) {
            Ok(data) => Ok(Some(data)),
            Err(e) => Err(e),
        }
    }
}

/// Decodes the frames of a keyboard, bit by bit or word by word.
#[derive(Debug)]
pub struct Ps2Decoder {
    register: u16,
    num_bits: u8,
}

proof fn lemma_shift_in(register: u16, n: u16, b: u16, i: u16)
    by (bit_vector)
    requires
        n <= 10,
        register >> n == 0,
        b <= 1,
        i <= n,
    ensures
        i < n ==> (((register | (b << n)) >> i) & 1 != 0) == ((register >> i) & 1 != 0),
        (((register | (b << n)) >> n) & 1 != 0) == (b == 1),
        (register | (b << n)) >> ((n + 1) as u16) == 0,
{
}

proof fn lemma_data_byte(word: u16)
    by (bit_vector)
    ensures
        (word >> 1) & 0xFF == (if (word >> 1) & 1 != 0 {
            1u16
        } else {
            0u16
        }) + 2 * (if (word >> 2) & 1 != 0 {
            1u16
        } else {
            0u16
        }) + 4 * (if (word >> 3) & 1 != 0 {
            1u16
        } else {
            0u16
        }) + 8 * (if (word >> 4) & 1 != 0 {
            1u16
        } else {
            0u16
        }) + 16 * (if (word >> 5) & 1 != 0 {
            1u16
        } else {
            0u16
        }) + 32 * (if (word >> 6) & 1 != 0 {
            1u16
        } else {
            0u16
        }) + 64 * (if (word >> 7) & 1 != 0 {
            1u16
        } else {
            0u16
        }) + 128 * (if (word >> 8) & 1 != 0 {
            1u16
        } else {
            0u16
        }),
        (word >> 1) & 0xFF <= 255,
{
}

/// How many of the bits of a byte are set.
pub open spec fn byte_ones(data: u8) -> nat {
    bit_value(data & 0x01 != 0) + bit_value(data & 0x02 != 0) + bit_value(data & 0x04 != 0)
        + bit_value(data & 0x08 != 0) + bit_value(data & 0x10 != 0) + bit_value(data & 0x20 != 0)
        + bit_value(data & 0x40 != 0) + bit_value(data & 0x80 != 0)
}

proof fn lemma_byte_bits(word: u16)
    by (bit_vector)
    ensures
        ((((word >> 1) & 0xFF) as u8) & 0x01 != 0) == ((word >> 1) & 1 != 0),
        ((((word >> 1) & 0xFF) as u8) & 0x02 != 0) == ((word >> 2) & 1 != 0),
        ((((word >> 1) & 0xFF) as u8) & 0x04 != 0) == ((word >> 3) & 1 != 0),
        ((((word >> 1) & 0xFF) as u8) & 0x08 != 0) == ((word >> 4) & 1 != 0),
        ((((word >> 1) & 0xFF) as u8) & 0x10 != 0) == ((word >> 5) & 1 != 0),
        ((((word >> 1) & 0xFF) as u8) & 0x20 != 0) == ((word >> 6) & 1 != 0),
        ((((word >> 1) & 0xFF) as u8) & 0x40 != 0) == ((word >> 7) & 1 != 0),
        ((((word >> 1) & 0xFF) as u8) & 0x80 != 0) == ((word >> 8) & 1 != 0),
{
}

proof fn lemma_parity_fold(data: u8)
    by (bit_vector)
    ensures
        ({
            let nibble = data ^ (data >> 4);
            let pair = nibble ^ (nibble >> 2);
            let single = pair ^ (pair >> 1);
            single & 1 == 0
        }) == (((if data & 0x01 != 0 {
            1u8
        } else {
            0u8
        }) + (if data & 0x02 != 0 {
            1u8
        } else {
            0u8
        }) + (if data & 0x04 != 0 {
            1u8
        } else {
            0u8
        }) + (if data & 0x08 != 0 {
            1u8
        } else {
            0u8
        }) + (if data & 0x10 != 0 {
            1u8
        } else {
            0u8
        }) + (if data & 0x20 != 0 {
            1u8
        } else {
            0u8
        }) + (if data & 0x40 != 0 {
            1u8
        } else {
            0u8
        }) + (if data & 0x80 != 0 {
            1u8
        } else {
            0u8
        })) % 2 == 0),
{
}

impl View for Ps2Decoder {
    type V = Seq<bool>;

    /// The bits of the frame in flight, in the order in which they came.
    closed spec fn view(&self) -> Seq<bool> {
        word_bits(self.register, self.num_bits as nat)
    }
}

impl Ps2Decoder {
    #[verifier::type_invariant]
    spec fn well_formed(self) -> bool {
        self.num_bits <= 10 && self.register >> (self.num_bits as u16) == 0
    }

    /// A decoder that holds no bit.
    pub fn new() -> (decoder: Ps2Decoder)
        ensures
            decoder@ == Seq::<bool>::empty(),
    {
        assert(0u16 >> 0u16 == 0) by (bit_vector);
        Ps2Decoder { register: 0, num_bits: 0 }
    }

    /// Forgets the bits of a frame in flight, for a keyboard that fell
    /// silent in the middle of one.
    pub fn clear(&mut self)
        ensures
            final(self)@ == Seq::<bool>::empty(),
    {
        assert(0u16 >> 0u16 == 0) by (bit_vector);
        *self = Ps2Decoder { register: 0, num_bits: 0 };
    }

    /// Takes one bit. The first ten bits of a frame are kept and answered
    /// with `Ok(None)`. The eleventh completes the frame: the decoder is
    /// empty again, and the answer is the data byte, or the first of the
    /// three checks that the frame fails. A decoder never holds more than
    /// ten bits.
    pub fn add_bit(&mut self, bit: bool) -> (outcome: Result<Option<u8>, Error>)
        ensures
            old(self)@.len() <= 10,
            outcome == bit_outcome(old(self)@, bit),
            final(self)@ == bits_after(old(self)@, bit),
    {
        proof {
            use_type_invariant(&*self);
        }
        let held: u8 = self.num_bits;
        let incoming: u16 = if bit {
            1
        } else {
            0
        };
        let word: u16 = self.register | (incoming << (held as u16));
        proof {
            let before = word_bits(self.register, held as nat);
            let after = word_bits(word, (held + 1) as nat);
            assert forall|i: int| 0 <= i < held + 1 implies after[i] == before.push(bit)[i] by {
                lemma_shift_in(self.register, held as u16, incoming, i as u16);
            }
            lemma_shift_in(self.register, held as u16, incoming, 0);
            assert(after =~= before.push(bit));
            assert(0u16 >> 0u16 == 0) by (bit_vector);
        }
        if held + 1 == KEYCODE_BITS {
            *self = Ps2Decoder { register: 0, num_bits: 0 };
            match Self::check_word(word) {
                Ok(data) => Ok(Some(data)),
                Err(e) => Err(e),
            }
        } else {
            *self = Ps2Decoder { register: word, num_bits: held + 1 };
            Ok(None)
        }
    }

    /// Checks a whole frame, packed into the low eleven bits of `word` with
    /// the start bit lowest. The bits above them are not looked at, and the
    /// decoder's own bits are not touched.
    pub fn add_word(&self, word: u16) -> (outcome: Result<u8, Error>)
        ensures
            outcome == frame_checked(word_bits(word, 11)),
    {
        Self::check_word(word)
    }

    /// Checks the start bit, the stop bit and the parity of a frame, in
    /// that order, and gives its data byte.
    fn check_word(word: u16) -> (outcome: Result<u8, Error>)
        ensures
            outcome == frame_checked(word_bits(word, 11)),
    {
        let start_bit = Self::get_bit(word, 0);
        let parity_bit = Self::get_bit(word, 9);
        let stop_bit = Self::get_bit(word, 10);
        let data: u8 = ((word >> 1) & 0xFF) as u8;
        proof {
            lemma_data_byte(word);
            lemma_byte_bits(word);
        }

        if start_bit {
            return Err(Error::BadStartBit);
        }
        if !stop_bit {
            return Err(Error::BadStopBit);
        }
        // With odd parity, an even number of set data bits wants the
        // parity bit set.

        let need_parity = Self::has_even_number_bits(data);
        if need_parity != parity_bit {
            return Err(Error::ParityError);
        }
        Ok(data)
    }

    /// Bit `offset` of `word`.
    fn get_bit(word: u16, offset: u16) -> (bit: bool)
        requires
            offset < 16,
        ensures
            bit == bit_at(word, offset),
    {
        ((word >> offset) & 0x0001) != 0
    }

    /// Whether an even number of the bits of `data` are set.
    fn has_even_number_bits(data: u8) -> (even: bool)
        ensures
            even == (byte_ones(data) % 2 == 0),
    {
        let nibble: u8 = data ^ (data >> 4);
        let pair: u8 = nibble ^ (nibble >> 2);
        let single: u8 = pair ^ (pair >> 1);
        proof {
            lemma_parity_fold(data);
        }
        (single & 1) == 0
    }
}

impl Default for Ps2Decoder {
    fn default() -> (decoder: Ps2Decoder)
        ensures
            decoder@ == Seq::<bool>::empty(),
    {
        Ps2Decoder::new()
    }
}

/// Whether eleven bits form a frame that passes all three checks.
pub open spec fn is_legal_frame(bits: Seq<bool>) -> bool {
    bits.len() == 11 && !bits[0] && bits[10] && bits[9] == frame_parity(bits)
}

/// The frame that carries a byte.
pub open spec fn frame_of(data: u8) -> Seq<bool> {
    seq![
        false,
        data & 0x01 != 0,
        data & 0x02 != 0,
        data & 0x04 != 0,
        data & 0x08 != 0,
        data & 0x10 != 0,
        data & 0x20 != 0,
        data & 0x40 != 0,
        data & 0x80 != 0,
        byte_ones(data) % 2 == 0,
        true,
    ]
}

/// The bits that a decoder holds after a stream of bits, fed one by one.
pub open spec fn bits_fed(held: Seq<bool>, stream: Seq<bool>) -> Seq<bool>
    decreases stream.len(),
{
    if stream.len() == 0 {
        held
    } else {
        bits_after(bits_fed(held, stream.drop_last()), stream.last())
    }
}

proof fn lemma_byte_is_sum_of_bits(data: u8)
    by (bit_vector)
    ensures
        data == (if data & 0x01 != 0 {
            1u8
        } else {
            0u8
        }) + (if data & 0x02 != 0 {
            2u8
        } else {
            0u8
        }) + (if data & 0x04 != 0 {
            4u8
        } else {
            0u8
        }) + (if data & 0x08 != 0 {
            8u8
        } else {
            0u8
        }) + (if data & 0x10 != 0 {
            16u8
        } else {
            0u8
        }) + (if data & 0x20 != 0 {
            32u8
        } else {
            0u8
        }) + (if data & 0x40 != 0 {
            64u8
        } else {
            0u8
        }) + (if data & 0x80 != 0 {
            128u8
        } else {
            0u8
        }),
{
}

/// Every byte has a legal frame, and that frame decodes to the byte.
pub proof fn lemma_frame_of_decodes(data: u8)
    ensures
        is_legal_frame(frame_of(data)),
        frame_checked(frame_of(data)) == Ok::<u8, Error>(data),
{
    lemma_byte_is_sum_of_bits(data);
}

/// A decoder that starts empty holds, after the first `k` bits of a
/// frame, just those bits.
pub proof fn lemma_frame_prefix_is_held(bits: Seq<bool>, k: int)
    requires
        bits.len() == 11,
        0 <= k <= 10,
    ensures
        bits_fed(Seq::empty(), bits.take(k)) == bits.take(k),
    decreases k,
{
    if k == 0 {
        assert(bits.take(0) =~= Seq::<bool>::empty());
    } else {
        lemma_frame_prefix_is_held(bits, k - 1);
        assert(bits.take(k).drop_last() =~= bits.take(k - 1));
        assert(bits.take(k - 1).push(bits[k - 1]) =~= bits.take(k));
    }
}

/// A legal frame decodes to its data byte: fed bit by bit to an empty
/// decoder, each of the first ten bits is answered with `Ok(None)`, the
/// eleventh with the byte, and the decoder is empty again.
pub proof fn lemma_legal_frame_decodes(bits: Seq<bool>, k: int)
    requires
        is_legal_frame(bits),
        0 <= k < 10,
    ensures
        bit_outcome(bits_fed(Seq::empty(), bits.take(k)), bits[k]) == Ok::<Option<u8>, Error>(None),
        bit_outcome(bits_fed(Seq::empty(), bits.take(10)), bits[10]) == Ok::<Option<u8>, Error>(
            Some(frame_data(bits)),
        ),
        bits_fed(Seq::empty(), bits) == Seq::<bool>::empty(),
{
    lemma_frame_prefix_is_held(bits, k);
    lemma_frame_prefix_is_held(bits, 10);
    assert(bits.take(10).push(bits[10]) =~= bits);
    assert(bits.drop_last() =~= bits.take(10));
}

proof fn lemma_flip_changes_ones(bits: Seq<bool>, i: int)
    requires
        bits.len() == 11,
        1 <= i <= 8,
    ensures
        frame_ones(bits.update(i, !bits[i])) + 2 * bit_value(bits[i]) == frame_ones(bits) + 1,
{
    let flipped = bits.update(i, !bits[i]);
    assert forall|j: int| 1 <= j <= 8 && j != i implies #[trigger] flipped[j] == bits[j] by {}
    assert(bit_value(flipped[i]) + bit_value(bits[i]) == 1);
}

proof fn lemma_flip_changes_parity(bits: Seq<bool>, i: int)
    requires
        bits.len() == 11,
        1 <= i <= 8,
    ensures
        frame_parity(bits.update(i, !bits[i])) != frame_parity(bits),
        bits.update(i, !bits[i])[0] == bits[0],
        bits.update(i, !bits[i])[9] == bits[9],
        bits.update(i, !bits[i])[10] == bits[10],
{
    lemma_flip_changes_ones(bits, i);
    let before = frame_ones(bits) as int;
    let after = frame_ones(bits.update(i, !bits[i])) as int;
    assert(after == before + 1 || after == before - 1);
}

/// A legal frame in which one data bit is flipped, the parity bit left as
/// it was, is a parity error at its eleventh bit, and the decoder is empty
/// after it.
pub proof fn lemma_flipped_data_bit_is_parity_error(bits: Seq<bool>, i: int)
    requires
        is_legal_frame(bits),
        1 <= i <= 8,
    ensures
        frame_checked(bits.update(i, !bits[i])) == Err::<u8, Error>(Error::ParityError),
        bit_outcome(
            bits_fed(Seq::empty(), bits.update(i, !bits[i]).take(10)),
            bits.update(i, !bits[i])[10],
        ) == Err::<Option<u8>, Error>(Error::ParityError),
        bits_fed(Seq::empty(), bits.update(i, !bits[i])) == Seq::<bool>::empty(),
{
    let flipped = bits.update(i, !bits[i]);
    lemma_flip_changes_parity(bits, i);
    assert(frame_checked(flipped) == Err::<u8, Error>(Error::ParityError));
    lemma_frame_prefix_is_held(flipped, 10);
    assert(flipped.take(10).push(flipped[10]) =~= flipped);
    assert(flipped.drop_last() =~= flipped.take(10));
}

} // verus!
