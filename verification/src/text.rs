//! The text forms of addresses and words, as the EVM tooling prints them.

use crate::primitives::{Address, B256};
use vstd::prelude::*;

verus! {

/// The lowercase hexadecimal digit for a value below sixteen.
pub open spec fn hex_digit(n: int) -> char {
    if n < 10 {
        (48 + n) as char
    } else {
        (87 + n) as char
    }
}

/// Two lowercase hexadecimal digits per byte, most significant digit first.
pub open spec fn hex_lower(bytes: Seq<u8>) -> Seq<char>
    decreases bytes.len(),
{
    if bytes.len() == 0 {
        Seq::empty()
    } else {
        seq![hex_digit((bytes[0] / 16) as int), hex_digit((bytes[0] % 16) as int)] + hex_lower(bytes.drop_first())
    }
}

/// `0x` followed by the lowercase hexadecimal digits of the bytes.
pub open spec fn prefixed_hex(bytes: Seq<u8>) -> Seq<char> {
    seq!['0', 'x'] + hex_lower(bytes)
}

/// An ASCII uppercase letter turned lowercase; every other character unchanged.
pub open spec fn ascii_lowercase(c: char) -> char {
    if 65 <= (c as int) <= 90 {
        ((c as int) + 32) as char
    } else {
        c
    }
}

/// The EIP-55 mixed-case checksum text of a 20-byte address.
pub uninterp spec fn checksummed_address(bytes: Seq<u8>) -> Seq<char>;

/// Calls `alloy_primitives::Address`'s `Display` (through `to_string`), which
/// writes the EIP-55 checksum form: `0x` and the forty hexadecimal digits of the
/// address, each letter uppercased or not according to the Keccak-256 hash of the
/// lowercase digits. The contract names that text and states what the source shows
/// of it without the hash: lowercased, it is `0x` and the lowercase digits.
#[verifier::external_body]
pub(crate) fn address_checksum_string(address: &Address) -> (s: String)
    ensures
        s@ == checksummed_address(address@),
        s@.map_values(|c: char| ascii_lowercase(c)) == prefixed_hex(address@),
{
    alloy_primitives::Address::from(address.bytes).to_string()
}

/// The one-character text of the lowercase hexadecimal digit for `n`.
fn hex_digit_str(n: u8) -> (s: &'static str)
    requires
        n < 16,
    ensures
        s@ == seq![hex_digit(n as int)],
{
    proof {
        reveal_strlit("0");
        reveal_strlit("1");
        reveal_strlit("2");
        reveal_strlit("3");
        reveal_strlit("4");
        reveal_strlit("5");
        reveal_strlit("6");
        reveal_strlit("7");
        reveal_strlit("8");
        reveal_strlit("9");
        reveal_strlit("a");
        reveal_strlit("b");
        reveal_strlit("c");
        reveal_strlit("d");
        reveal_strlit("e");
        reveal_strlit("f");
    }
    if n == 0 {
        "0"
    } else if n == 1 {
        "1"
    } else if n == 2 {
        "2"
    } else if n == 3 {
        "3"
    } else if n == 4 {
        "4"
    } else if n == 5 {
        "5"
    } else if n == 6 {
        "6"
    } else if n == 7 {
        "7"
    } else if n == 8 {
        "8"
    } else if n == 9 {
        "9"
    } else if n == 10 {
        "a"
    } else if n == 11 {
        "b"
    } else if n == 12 {
        "c"
    } else if n == 13 {
        "d"
    } else if n == 14 {
        "e"
    } else {
        "f"
    }
}

/// The hexadecimal digits of a concatenation are those of its parts, in order.
proof fn lemma_hex_lower_append(a: Seq<u8>, b: Seq<u8>)
    ensures
        hex_lower(a + b) == hex_lower(a) + hex_lower(b),
    decreases a.len(),
{
    if a.len() == 0 {
        assert(a + b =~= b);
        assert(hex_lower(a) + hex_lower(b) =~= hex_lower(b));
    } else {
        assert((a + b).drop_first() =~= a.drop_first() + b);
        lemma_hex_lower_append(a.drop_first(), b);
        assert(hex_lower(a + b) =~= hex_lower(a) + hex_lower(b));
    }
}

/// The text of a 32-byte word as `0x` followed by the lowercase hexadecimal
/// digits of its bytes, most significant digit of each byte first.
pub(crate) fn word_hex_string(word: &B256) -> (s: String)
    ensures
        s@ == prefixed_hex(word@),
{
    proof {
        reveal_strlit("0x");
    }
    let mut text = "0x".to_owned();
    let mut i: usize = 0;
    while i < 32
        invariant
            0 <= i <= 32,
            word@.len() == 32,
            text@ == seq!['0', 'x'] + hex_lower(word@.take(i as int)),
        decreases 32 - i,
    {
        let byte = word.bytes[i];
        text.append(hex_digit_str(byte / 16));
        text.append(hex_digit_str(byte % 16));
        proof {
            let done = word@.take(i as int);
            assert(word@.take(i + 1) =~= done + seq![byte]);
            lemma_hex_lower_append(done, seq![byte]);
            assert(seq![byte].drop_first() =~= Seq::<u8>::empty());
            assert(seq![byte][0] == byte);
            assert(hex_lower(Seq::<u8>::empty()) =~= Seq::<char>::empty());
            assert(hex_lower(seq![byte]) =~= seq![
                hex_digit((byte / 16) as int),
                hex_digit((byte % 16) as int),
            ]);
            assert(text@ =~= seq!['0', 'x'] + hex_lower(word@.take(i + 1)));
        }
        i += 1;
    }
    assert(word@.take(32) =~= word@);
    text
}

proof fn lemma_hex_digit_injective(n: int, m: int)
    requires
        0 <= n < 16,
        0 <= m < 16,
        hex_digit(n) == hex_digit(m),
    ensures
        n == m,
{
    assert(hex_digit(n) as int == if n < 10 { 48 + n } else { 87 + n });
    assert(hex_digit(m) as int == if m < 10 { 48 + m } else { 87 + m });
}

proof fn lemma_hex_lower_len(bytes: Seq<u8>)
    ensures
        hex_lower(bytes).len() == 2 * bytes.len(),
    decreases bytes.len(),
{
    if bytes.len() > 0 {
        lemma_hex_lower_len(bytes.drop_first());
    }
}

proof fn lemma_hex_lower_injective(a: Seq<u8>, b: Seq<u8>)
    requires
        hex_lower(a) == hex_lower(b),
    ensures
        a == b,
    decreases a.len(),
{
    lemma_hex_lower_len(a);
    lemma_hex_lower_len(b);
    if a.len() > 0 {
        let ha = hex_lower(a);
        let hb = hex_lower(b);
        assert(ha[0] == hb[0] && ha[1] == hb[1]);
        lemma_hex_digit_injective((a[0] / 16) as int, (b[0] / 16) as int);
        lemma_hex_digit_injective((a[0] % 16) as int, (b[0] % 16) as int);
        assert(a[0] == b[0]);
        assert(hex_lower(a.drop_first()) =~= ha.subrange(2, ha.len() as int));
        assert(hex_lower(b.drop_first()) =~= hb.subrange(2, hb.len() as int));
        lemma_hex_lower_injective(a.drop_first(), b.drop_first());
        assert(a =~= seq![a[0]] + a.drop_first());
        assert(b =~= seq![b[0]] + b.drop_first());
    } else {
        assert(a =~= b);
    }
}

proof fn lemma_hex_lower_layout(bytes: Seq<u8>)
    ensures
        hex_lower(bytes).len() == 2 * bytes.len(),
        forall|i: int|
            0 <= i < bytes.len() ==> hex_lower(bytes)[2 * i] == hex_digit((#[trigger] bytes[i] / 16) as int)
                && hex_lower(bytes)[2 * i + 1] == hex_digit((bytes[i] % 16) as int),
    decreases bytes.len(),
{
    lemma_hex_lower_len(bytes);
    if bytes.len() > 0 {
        let rest = bytes.drop_first();
        lemma_hex_lower_layout(rest);
        let h = hex_lower(bytes);
        assert(h =~= seq![hex_digit((bytes[0] / 16) as int), hex_digit((bytes[0] % 16) as int)]
            + hex_lower(rest));
        assert forall|i: int| 0 <= i < bytes.len() implies h[2 * i] == hex_digit(
            (#[trigger] bytes[i] / 16) as int,
        ) && h[2 * i + 1] == hex_digit((bytes[i] % 16) as int) by {
            if i > 0 {
                assert(rest[i - 1] == bytes[i]);
                assert(h[2 * i] == hex_lower(rest)[2 * (i - 1)]);
                assert(h[2 * i + 1] == hex_lower(rest)[2 * (i - 1) + 1]);
            }
        }
    }
}

/// The text of a byte string is `0x`, then, for each byte in order, the digit of its
/// high four bits and the digit of its low four bits; digits below ten are `0` to
/// `9`, the others `a` to `f`.
pub proof fn lemma_prefixed_hex_layout(bytes: Seq<u8>)
    ensures
        prefixed_hex(bytes).len() == 2 + 2 * bytes.len(),
        prefixed_hex(bytes)[0] == '0',
        prefixed_hex(bytes)[1] == 'x',
        forall|i: int|
            0 <= i < bytes.len() ==> {
                let high = #[trigger] bytes[i] / 16;
                let low = bytes[i] % 16;
                &&& prefixed_hex(bytes)[2 + 2 * i] as int == if high < 10 {
                    48 + high
                } else {
                    87 + high
                }
                &&& prefixed_hex(bytes)[3 + 2 * i] as int == if low < 10 {
                    48 + low
                } else {
                    87 + low
                }
            },
{
    lemma_hex_lower_layout(bytes);
    let p = prefixed_hex(bytes);
    assert forall|i: int| 0 <= i < bytes.len() implies {
        let high = #[trigger] bytes[i] / 16;
        let low = bytes[i] % 16;
        &&& p[2 + 2 * i] as int == if high < 10 {
            48 + high
        } else {
            87 + high
        }
        &&& p[3 + 2 * i] as int == if low < 10 {
            48 + low
        } else {
            87 + low
        }
    } by {
        assert(p[2 + 2 * i] == hex_lower(bytes)[2 * i]);
        assert(p[3 + 2 * i] == hex_lower(bytes)[2 * i + 1]);
    }
}

/// Different byte strings have different `0x`-prefixed hexadecimal texts, so the
/// text of an address or a word names it without ambiguity.
pub proof fn lemma_prefixed_hex_injective(a: Seq<u8>, b: Seq<u8>)
    ensures
        prefixed_hex(a) == prefixed_hex(b) ==> a == b,
{
    if prefixed_hex(a) == prefixed_hex(b) {
        assert(hex_lower(a) =~= prefixed_hex(a).subrange(2, prefixed_hex(a).len() as int));
        assert(hex_lower(b) =~= prefixed_hex(b).subrange(2, prefixed_hex(b).len() as int));
        lemma_hex_lower_injective(a, b);
    }
}

/// Two checksummed address texts that are equal belong to the same address:
/// the checksum only changes the case of letters, never the digits.
pub proof fn lemma_checksum_text_identifies_address(
    text_a: Seq<char>,
    a: Seq<u8>,
    text_b: Seq<char>,
    b: Seq<u8>,
)
    requires
        text_a.map_values(|c: char| ascii_lowercase(c)) == prefixed_hex(a),
        text_b.map_values(|c: char| ascii_lowercase(c)) == prefixed_hex(b),
    ensures
        text_a == text_b ==> a == b,
{
    if text_a == text_b {
        lemma_prefixed_hex_injective(a, b);
    }
}

} // verus!
