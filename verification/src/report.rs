//! The interface report of a TDISP device: its digest and its private range.
use sha2::Digest;
use vstd::prelude::*;

verus! {

/// The SHA-384 digest of a message.
pub uninterp spec fn sha384(message: Seq<u8>) -> Seq<u8>;

/// `sha2::Sha384::digest`: the digest of the message, 48 bytes long.
#[verifier::external_body]
fn sha384_digest(message: &[u8]) -> (digest: Vec<u8>)
    ensures
        digest@ == sha384(message@),
        digest@.len() == 48,
{
    sha2::Sha384::digest(message).to_vec()
}

/// The lower-case hexadecimal digit of a number below sixteen.
pub open spec fn hex_digit(n: int) -> char {
    if n < 10 {
        (0x30 + n) as char
    } else {
        (0x57 + n) as char
    }
}

/// Two lower-case hexadecimal digits for each byte, the high one first.
pub open spec fn hex_lower(bytes: Seq<u8>) -> Seq<char> {
    Seq::new(
        2 * bytes.len(),
        |i: int|
            if i % 2 == 0 {
                hex_digit(bytes[i / 2] as int / 16)
            } else {
                hex_digit(bytes[i / 2] as int % 16)
            },
    )
}

/// The text of one hexadecimal digit.
fn hex_digit_text(n: u8) -> (text: &'static str)
    requires
        n < 16,
    ensures
        text@ == seq![hex_digit(n as int)],
{
    proof {
        reveal_strlit("0");
        reveal_strlit("1");
        reveal_strlit("2");
        reveal_strlit("3");
        reveal_strlit("4");
        reveal_strlit("5");
        reveal_strlit("6");
        reveal_strlit("7");
        reveal_strlit("8");
        reveal_strlit("9");
        reveal_strlit("a");
        reveal_strlit("b");
        reveal_strlit("c");
        reveal_strlit("d");
        reveal_strlit("e");
        reveal_strlit("f");
    }
    match n {
        0 => "0",
        1 => "1",
        2 => "2",
        3 => "3",
        4 => "4",
        5 => "5",
        6 => "6",
        7 => "7",
        8 => "8",
        9 => "9",
        10 => "a",
        11 => "b",
        12 => "c",
        13 => "d",
        14 => "e",
        _ => "f",
    }
}

/// The bytes in lower-case hexadecimal.
pub fn to_hex_lower(bytes: &[u8]) -> (text: String)
    ensures
        text@ == hex_lower(bytes@),
        text@.len() == 2 * bytes@.len(),
        forall|i: int|
            0 <= i < bytes@.len() ==> text@[2 * i] == "0123456789abcdef"@[#[trigger] bytes@[i] as int
                / 16] && text@[2 * i + 1] == "0123456789abcdef"@[bytes@[i] as int % 16],
{
    let mut text = String::new();
    for i in 0..bytes.len()
        invariant
            text@ == hex_lower(bytes@.take(i as int)),
    {
        let byte: u8 = bytes[i];
        text.append(hex_digit_text(byte / 16));
        text.append(hex_digit_text(byte % 16));
        assert(text@ =~= hex_lower(bytes@.take(i + 1)));
    }
    assert(bytes@.take(bytes@.len() as int) =~= bytes@);
    proof {
        law_hex_digits(bytes@);
    }
    text
}

/// The SHA-384 digest of an interface report, in lower-case hexadecimal.
pub fn report_digest(report: &[u8]) -> (text: String)
    ensures
        text@ == hex_lower(sha384(report@)),
        text@.len() == 96,
{
    let digest = sha384_digest(report);
    to_hex_lower(digest.as_slice())
}

/// Each byte has two places in the text, one after the other: at the first stands
/// the digit of its upper four bits, at the second that of its lower four.
pub proof fn law_hex_digits(bytes: Seq<u8>)
    ensures
        hex_lower(bytes).len() == 2 * bytes.len(),
        forall|i: int|
            0 <= i < bytes.len() ==> hex_lower(bytes)[2 * i]
                == "0123456789abcdef"@[#[trigger] bytes[i] as int / 16] && hex_lower(bytes)[2 * i
                + 1] == "0123456789abcdef"@[bytes[i] as int % 16],
{
    reveal_strlit("0123456789abcdef");
    assert forall|i: int| 0 <= i < bytes.len() implies hex_lower(bytes)[2 * i]
        == "0123456789abcdef"@[#[trigger] bytes[i] as int / 16] && hex_lower(bytes)[2 * i + 1]
        == "0123456789abcdef"@[bytes[i] as int % 16] by {
        assert((2 * i) / 2 == i && (2 * i) % 2 == 0);
        assert((2 * i + 1) / 2 == i && (2 * i + 1) % 2 == 1);
        lemma_hex_digit_is_listed(bytes[i] as int / 16);
        lemma_hex_digit_is_listed(bytes[i] as int % 16);
    }
}

/// The digit of a number stands at that place among the sixteen digits.
proof fn lemma_hex_digit_is_listed(n: int)
    requires
        0 <= n < 16,
    ensures
        hex_digit(n) == "0123456789abcdef"@[n],
{
    reveal_strlit("0123456789abcdef");
}

/// The text can be read back: where two digits stand at the places of a byte, the
/// byte is sixteen times the first and the second.
pub proof fn law_hex_reads_back(bytes: Seq<u8>, i: int, high: int, low: int)
    requires
        0 <= i < bytes.len(),
        0 <= high < 16,
        0 <= low < 16,
        hex_lower(bytes)[2 * i] == "0123456789abcdef"@[high],
        hex_lower(bytes)[2 * i + 1] == "0123456789abcdef"@[low],
    ensures
        bytes[i] == 16 * high + low,
{
    law_hex_digits(bytes);
    let byte = bytes[i] as int;
    lemma_hex_digit_is_listed(high);
    lemma_hex_digit_is_listed(low);
    lemma_hex_digit_is_listed(byte / 16);
    lemma_hex_digit_is_listed(byte % 16);
}

/// Hexadecimal text tells its bytes: two byte strings with the same text are equal.
pub proof fn law_hex_is_injective(a: Seq<u8>, b: Seq<u8>)
    requires
        hex_lower(a) == hex_lower(b),
    ensures
        a == b,
{
    assert(hex_lower(a).len() == 2 * a.len());
    assert(hex_lower(b).len() == 2 * b.len());
    assert forall|i: int| 0 <= i < a.len() implies a[i] == b[i] by {
        assert(hex_lower(a)[2 * i] == hex_lower(b)[2 * i]);
        assert(hex_lower(a)[2 * i + 1] == hex_lower(b)[2 * i + 1]);
        assert((2 * i) / 2 == i && (2 * i) % 2 == 0);
        assert((2 * i + 1) / 2 == i && (2 * i + 1) % 2 == 1);
        assert(hex_lower(a)[2 * i] == hex_digit(a[i] as int / 16));
        assert(hex_lower(b)[2 * i] == hex_digit(b[i] as int / 16));
        assert(hex_lower(a)[2 * i + 1] == hex_digit(a[i] as int % 16));
        assert(hex_lower(b)[2 * i + 1] == hex_digit(b[i] as int % 16));
    }
    assert(a =~= b);
}

/// An MMIO range that an interface report lists.
#[derive(Copy, Clone, Debug, PartialEq, Eq, Structural)]
pub struct MmioRange {
    /// The number by which the report knows the range.
    pub range_id: u16,
    /// Whether the range is open to accesses from outside the TEE.
    pub non_tee_mem: bool,
}

/// The number of the first private range of a report.
pub open spec fn private_range(ranges: Seq<MmioRange>) -> Option<u32>
    decreases ranges.len(),
{
    if ranges.len() == 0 {
        None
    } else if !ranges[0].non_tee_mem {
        Some(ranges[0].range_id as u32)
    } else {
        private_range(ranges.drop_first())
    }
}

/// Finds the first private range of a report.
pub fn find_private_range(ranges: &[MmioRange]) -> (found: Option<u32>)
    ensures
        found == private_range(ranges@),
        match found {
            Some(id) => exists|i: int|
                0 <= i < ranges@.len() && !(#[trigger] ranges@[i]).non_tee_mem
                    && ranges@[i].range_id == id && forall|j: int|
                    0 <= j < i ==> (#[trigger] ranges@[j]).non_tee_mem,
            None => forall|i: int| 0 <= i < ranges@.len() ==> (#[trigger] ranges@[i]).non_tee_mem,
        },
{
    assert(ranges@.skip(0) =~= ranges@);
    for i in 0..ranges.len()
        invariant
            private_range(ranges@) == private_range(ranges@.skip(i as int)),
            forall|j: int| 0 <= j < i ==> (#[trigger] ranges@[j]).non_tee_mem,
    {
        if !ranges[i].non_tee_mem {
            assert(!ranges@[i as int].non_tee_mem);
            return Some(ranges[i].range_id as u32);
        }
        assert(ranges@.skip(i as int).drop_first() =~= ranges@.skip(i + 1));
    }
    None
}

/// The private range that is found is the first: it is in the report, and every
/// range before it is open. None is found only where every range is open.
pub proof fn law_private_range_is_first(ranges: Seq<MmioRange>)
    ensures
        match private_range(ranges) {
            Some(id) => exists|i: int|
                0 <= i < ranges.len() && !(#[trigger] ranges[i]).non_tee_mem && ranges[i].range_id
                    == id && forall|j: int| 0 <= j < i ==> (#[trigger] ranges[j]).non_tee_mem,
            None => forall|i: int| 0 <= i < ranges.len() ==> (#[trigger] ranges[i]).non_tee_mem,
        },
    decreases ranges.len(),
{
    if ranges.len() > 0 {
        let rest = ranges.drop_first();
        law_private_range_is_first(rest);
        if ranges[0].non_tee_mem {
            match private_range(rest) {
                Some(id) => {
                    let i = choose|i: int|
                        0 <= i < rest.len() && !(#[trigger] rest[i]).non_tee_mem
                            && rest[i].range_id == id && forall|j: int|
                            0 <= j < i ==> (#[trigger] rest[j]).non_tee_mem;
                    assert(ranges[i + 1] == rest[i]);
                    assert forall|j: int| 0 <= j < i + 1 implies (
                    #[trigger] ranges[j]).non_tee_mem by {
                        if j > 0 {
                            assert(rest[j - 1].non_tee_mem);
                        }
                    }
                },
                None => {
                    assert forall|i: int| 0 <= i < ranges.len() implies (
                    #[trigger] ranges[i]).non_tee_mem by {
                        if i > 0 {
                            assert(rest[i - 1].non_tee_mem);
                        }
                    }
                },
            }
        } else {
            assert(!ranges[0].non_tee_mem);
        }
    }
}

} // verus!
