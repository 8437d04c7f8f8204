use vstd::prelude::*;

verus! {

/// The ASCII digit zero.
pub const DIGIT_ZERO: u8 = 48;

/// The ASCII digit one.
pub const DIGIT_ONE: u8 = 49;

/// The textual rendering of a bit-vector constant at the foreign boundary:
/// most-significant bit first, one ASCII digit per bit. The abstract
/// representation is least-significant bit first, so digit `i` of the text
/// renders bit `len - 1 - i`.
pub open spec fn spec_encode_bits(bits: Seq<bool>) -> Seq<u8> {
    Seq::new(
        bits.len(),
        |i: int|
            if bits[bits.len() - 1 - i] {
                DIGIT_ONE
            } else {
                DIGIT_ZERO
            },
    )
}

/// The abstract reading of a textual bit assignment from the foreign
/// boundary: digit `i` of the most-significant-bit-first text becomes bit
/// `len - 1 - i`, true exactly on the digit one.
pub open spec fn spec_decode_text(text: Seq<u8>) -> Seq<bool> {
    Seq::new(text.len(), |i: int| text[text.len() - 1 - i] == DIGIT_ONE)
}

/// Renders a bit-vector constant, least-significant bit first, into the
/// foreign boundary's most-significant-bit-first digit text. The constant's
/// length determines the width of the resulting sort, so an empty constant is
/// left out by precondition rather than silently widened.
pub fn encode_bits(bits: &Vec<bool>) -> (r: Vec<u8>)
    requires
        bits@.len() >= 1,
    ensures
        r@ == spec_encode_bits(bits@),
{
    let n = bits.len();
    let mut r: Vec<u8> = Vec::new();
    let mut i: usize = 0;
    while i < n
        invariant
            n == bits@.len(),
            i <= n,
            r@.len() == i,
            forall|j: int| 0 <= j < i ==> r@[j] == spec_encode_bits(bits@)[j],
        decreases n - i,
    {
        let bit = bits[n - 1 - i];
        r.push(if bit { DIGIT_ONE } else { DIGIT_ZERO });
        i = i + 1;
    }
    assert(r@ =~= spec_encode_bits(bits@));
    r
}

/// Reads a textual bit assignment back into the abstract
/// least-significant-bit-first representation. Every byte other than the
/// digit one reads as false, as the foreign boundary only emits binary digit
/// text.
pub fn decode_text(text: &Vec<u8>) -> (r: Vec<bool>)
    ensures
        r@ == spec_decode_text(text@),
{
    let n = text.len();
    let mut r: Vec<bool> = Vec::new();
    let mut i: usize = 0;
    while i < n
        invariant
            n == text@.len(),
            i <= n,
            r@.len() == i,
            forall|j: int| 0 <= j < i ==> r@[j] == spec_decode_text(text@)[j],
        decreases n - i,
    {
        r.push(text[n - 1 - i] == DIGIT_ONE);
        i = i + 1;
    }
    assert(r@ =~= spec_decode_text(text@));
    r
}

/// Reading an encoded constant back yields the constant: the two bit-order
/// reversals cancel, so the abstract representation survives the trip to the
/// foreign boundary and back.
pub proof fn lemma_encode_decode_round_trip(bits: Seq<bool>)
    ensures
        spec_decode_text(spec_encode_bits(bits)) == bits,
{
    let enc = spec_encode_bits(bits);
    assert forall|i: int| 0 <= i < bits.len() implies spec_decode_text(enc)[i] == bits[i] by {
        assert(enc[bits.len() - 1 - i] == (if bits[i] {
            DIGIT_ONE
        } else {
            DIGIT_ZERO
        }));
    }
    assert(spec_decode_text(enc) =~= bits);
}

/// Distinct constants of one length encode to distinct foreign texts, so two
/// different equal-width constants never collapse into one foreign node
/// through the codec.
pub proof fn lemma_encode_injective(a: Seq<bool>, b: Seq<bool>)
    requires
        a.len() == b.len(),
        a != b,
    ensures
        spec_encode_bits(a) != spec_encode_bits(b),
{
    if spec_encode_bits(a) == spec_encode_bits(b) {
        lemma_encode_decode_round_trip(a);
        lemma_encode_decode_round_trip(b);
    }
}

/// The decimal digit text of `n`, most significant digit first, with no
/// leading zero.
pub open spec fn spec_decimal(n: nat) -> Seq<u8>
    decreases n,
{
    if n < 10 {
        seq![(DIGIT_ZERO + n) as u8]
    } else {
        spec_decimal(n / 10).push((DIGIT_ZERO + n % 10) as u8)
    }
}

/// The session-unique diagnostic symbol attached to a fresh variable: the
/// word `var`, a space, and the identifier in decimal.
pub open spec fn spec_var_symbol(id: u32) -> Seq<u8> {
    seq![118u8, 97u8, 114u8, 32u8] + spec_decimal(id as nat)
}

/// Appends the decimal digits of `n` to `out`, most significant first.
fn push_decimal(n: u32, out: &mut Vec<u8>)
    ensures
        final(out)@ == old(out)@ + spec_decimal(n as nat),
    decreases n,
{
    if n >= 10 {
        push_decimal(n / 10, out);
    }
    out.push(DIGIT_ZERO + (n % 10) as u8);
    assert(out@ =~= old(out)@ + spec_decimal(n as nat));
}

/// Builds the diagnostic symbol for the variable with identifier `id`. The
/// symbol serves foreign diagnostics only: two variables from distinct
/// allocation calls are distinct terms even under one symbol.
pub fn var_symbol(id: u32) -> (r: Vec<u8>)
    ensures
        r@ == spec_var_symbol(id),
{
    let mut r: Vec<u8> = Vec::new();
    r.push(118);
    r.push(97);
    r.push(114);
    r.push(32);
    push_decimal(id, &mut r);
    assert(r@ =~= spec_var_symbol(id));
    r
}

} // verus!
