use vstd::prelude::*;

verus! {

/// The lower-case hexadecimal digit of `n` (0 to 15).
pub open spec fn hex_digit(n: int) -> char {
    seq!['0', '1', '2', '3', '4', '5', '6', '7', '8', '9', 'a', 'b', 'c', 'd', 'e', 'f'][n]
}

/// The two lower-case hexadecimal digits of a byte, high nibble first.
pub open spec fn hex_byte(b: u8) -> Seq<char> {
    seq![hex_digit(b as int / 16), hex_digit(b as int % 16)]
}

/// The bytes `b[from .. to]` in lower-case hexadecimal.
pub open spec fn hex_bytes(b: Seq<u8>, from: int, to: int) -> Seq<char>
    decreases to - from,
{
    if to <= from {
        Seq::empty()
    } else {
        hex_bytes(b, from, to - 1) + hex_byte(b[to - 1])
    }
}

/// Sixteen random bytes made into a version 4, RFC 4122 variant UUID: the
/// high nibble of byte 6 becomes 4 and the two high bits of byte 8 become 10.
pub open spec fn v4_bytes(random: Seq<u8>) -> Seq<u8> {
    random.update(6, (random[6] & 0x0f) | 0x40).update(8, (random[8] & 0x3f) | 0x80)
}

/// The hyphenated lower-case text of the UUID with bytes `b`: 8, 4, 4, 4 and
/// 12 hexadecimal digits separated by hyphens.
pub open spec fn hyphenated(b: Seq<u8>) -> Seq<char> {
    hex_bytes(b, 0, 4) + seq!['-'] + hex_bytes(b, 4, 6) + seq!['-'] + hex_bytes(b, 6, 8) + seq!['-']
        + hex_bytes(b, 8, 10) + seq!['-'] + hex_bytes(b, 10, 16)
}

/// The text of the version 4 UUID made from sixteen random bytes.
pub open spec fn uuid_v4_text(random: Seq<u8>) -> Seq<char> {
    hyphenated(v4_bytes(random))
}

/// A lower-case hexadecimal digit.
pub open spec fn is_hex_digit(c: char) -> bool {
    ('0' <= c <= '9') || ('a' <= c <= 'f')
}

/// The shape of every version 4 UUID text: 36 characters, hyphens at
/// positions 8, 13, 18 and 23, lower-case hexadecimal digits elsewhere, the
/// version digit `4` at position 14 and one of `8`, `9`, `a`, `b` at 19.
pub open spec fn is_uuid_v4_text(s: Seq<char>) -> bool {
    &&& s.len() == 36
    &&& forall|i: int|
        0 <= i < 36 ==> (if i == 8 || i == 13 || i == 18 || i == 23 {
            s[i] == '-'
        } else {
            is_hex_digit(#[trigger] s[i])
        })
    &&& s[14] == '4'
    &&& s[19] == '8' || s[19] == '9' || s[19] == 'a' || s[19] == 'b'
}

/// The digit of a byte's hex text at position `i`: the high nibble at even
/// positions, the low one at odd positions.
pub open spec fn hex_at(b: Seq<u8>, from: int, i: int) -> char {
    if i % 2 == 0 {
        hex_digit(b[from + i / 2] as int / 16)
    } else {
        hex_digit(b[from + i / 2] as int % 16)
    }
}

/// Hex of `b[from .. to]` has two digits per byte, high nibble first.
proof fn lemma_hex_bytes(b: Seq<u8>, from: int, to: int)
    requires
        0 <= from <= to <= b.len(),
    ensures
        hex_bytes(b, from, to).len() == 2 * (to - from),
        forall|i: int|
            0 <= i < 2 * (to - from) ==> #[trigger] hex_bytes(b, from, to)[i] == hex_at(b, from, i),
    decreases to - from,
{
    if from < to {
        lemma_hex_bytes(b, from, to - 1);
        let prefix = hex_bytes(b, from, to - 1);
        let whole = hex_bytes(b, from, to);
        assert forall|i: int| 0 <= i < 2 * (to - from) implies #[trigger] whole[i] == hex_at(b, from, i) by {
            if i < 2 * (to - from - 1) {
                assert(whole[i] == prefix[i]);
            } else {
                assert(i / 2 == to - 1 - from);
                assert(whole[i] == hex_byte(b[to - 1])[i - 2 * (to - from - 1)]);
            }
        }
    }
}

/// Every hexadecimal digit of a byte is a lower-case hex digit.
proof fn lemma_hex_digit(n: int)
    requires
        0 <= n < 16,
    ensures
        is_hex_digit(hex_digit(n)),
{
}

/// Every version 4 UUID text has the v4 shape.
pub proof fn lemma_uuid_v4_text_shape(random: Seq<u8>)
    requires
        random.len() == 16,
    ensures
        is_uuid_v4_text(uuid_v4_text(random)),
{
    let b = v4_bytes(random);
    let s = uuid_v4_text(random);
    let r6 = random[6];
    let r8 = random[8];
    assert(((r6 & 0x0f) | 0x40) / 16 == 4) by (bit_vector);
    assert(8 <= ((r8 & 0x3f) | 0x80) / 16 <= 11) by (bit_vector);
    lemma_hex_bytes(b, 0, 4);
    lemma_hex_bytes(b, 4, 6);
    lemma_hex_bytes(b, 6, 8);
    lemma_hex_bytes(b, 8, 10);
    lemma_hex_bytes(b, 10, 16);
    let h0 = hex_bytes(b, 0, 4);
    let h1 = hex_bytes(b, 4, 6);
    let h2 = hex_bytes(b, 6, 8);
    let h3 = hex_bytes(b, 8, 10);
    let h4 = hex_bytes(b, 10, 16);
    assert(s.len() == 36);
    assert(s[14] == h2[0]);
    assert(h2[0] == hex_at(b, 6, 0));
    assert(s[19] == h3[0]);
    assert(h3[0] == hex_at(b, 8, 0));
    assert forall|i: int| 0 <= i < 36 implies (if i == 8 || i == 13 || i == 18 || i == 23 {
        s[i] == '-'
    } else {
        is_hex_digit(#[trigger] s[i])
    }) by {
        if i < 8 {
            assert(s[i] == h0[i]);
            assert(h0[i] == hex_at(b, 0, i));
            lemma_hex_digit(b[i / 2] as int / 16);
            lemma_hex_digit(b[i / 2] as int % 16);
        } else if 9 <= i < 13 {
            assert(s[i] == h1[i - 9]);
            assert(h1[i - 9] == hex_at(b, 4, i - 9));
            lemma_hex_digit(b[4 + (i - 9) / 2] as int / 16);
            lemma_hex_digit(b[4 + (i - 9) / 2] as int % 16);
        } else if 14 <= i < 18 {
            assert(s[i] == h2[i - 14]);
            assert(h2[i - 14] == hex_at(b, 6, i - 14));
            lemma_hex_digit(b[6 + (i - 14) / 2] as int / 16);
            lemma_hex_digit(b[6 + (i - 14) / 2] as int % 16);
        } else if 19 <= i < 23 {
            assert(s[i] == h3[i - 19]);
            assert(h3[i - 19] == hex_at(b, 8, i - 19));
            lemma_hex_digit(b[8 + (i - 19) / 2] as int / 16);
            lemma_hex_digit(b[8 + (i - 19) / 2] as int % 16);
        } else if 24 <= i {
            assert(s[i] == h4[i - 24]);
            assert(h4[i - 24] == hex_at(b, 10, i - 24));
            lemma_hex_digit(b[10 + (i - 24) / 2] as int / 16);
            lemma_hex_digit(b[10 + (i - 24) / 2] as int % 16);
        }
    }
}

/// Sixteen bytes from the operating system's random source, drawn with
/// `getrandom::fill`; `None` when the source reports an error. Nothing is
/// promised of the bytes.
#[verifier::external_body]
fn random_bytes() -> Option<[u8; 16]> {
    let mut bytes = [0u8; 16];
    match getrandom::fill(&mut bytes) {
        Ok(()) => Some(bytes),
        Err(_) => None,
    }
}

/// The text of `uuid::Builder::from_random_bytes(random).into_uuid()`: the
/// bytes with the version and variant bits set, as `Display` writes a UUID
/// (lower-case hexadecimal, hyphenated).
#[verifier::external_body]
fn uuid_text_from_random(random: [u8; 16]) -> (text: String)
    ensures
        text@ == uuid_v4_text(random@),
{
    uuid::Builder::from_random_bytes(random).into_uuid().to_string()
}

/// A fresh random version 4 UUID in its hyphenated text form, or `None` when
/// the operating system gives no random bytes.
pub fn random_uuid() -> (id: Option<String>)
    ensures
        id matches Some(text) ==> is_uuid_v4_text(text@) && exists|random: Seq<u8>|
            random.len() == 16 && text@ == uuid_v4_text(random),
{
    match random_bytes() {
        Some(random) => {
            let text = uuid_text_from_random(random);
            proof {
                lemma_uuid_v4_text_shape(random@);
            }
            Some(text)
        },
        None => None,
    }
}

} // verus!
