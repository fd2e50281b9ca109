//! The guest's MAC address: a fixed two-octet prefix followed by the lower
//! 32 bits of a stable hash of the instance id.

use std::collections::hash_map::DefaultHasher;
use std::hash::{Hash, Hasher};
use vstd::prelude::*;
use vstd::std_specs::hash::DefaultHasherAdditionalSpecFns;

verus! {

/// The writes by which `str`'s implementation of `Hash` feeds the text to a
/// hasher.
pub uninterp spec fn text_writes(text: Seq<char>) -> Seq<Seq<u8>>;

/// Calls `Hash::hash` of `str` on the hasher. What is written depends on the
/// text alone and comes after what the hasher was fed before; the contract
/// gives the writes their name and claims nothing more of them.
#[verifier::external_body]
fn feed_text(hasher: &mut DefaultHasher, text: &str)
    ensures
        final(hasher)@ == old(hasher)@ + text_writes(text@),
{
    text.hash(hasher);
}

/// The 64-bit hash of the text `id`: what a new `DefaultHasher` finishes
/// with after it was fed the text. It is fixed for one release of std; std
/// does not promise the same value across releases.
pub open spec fn id_hash(id: Seq<char>) -> u64 {
    DefaultHasher::spec_finish(text_writes(id))
}

/// The hash of the text `id`.
pub fn hash_id(id: &str) -> (hash: u64)
    ensures
        hash == id_hash(id@),
{
    let mut hasher = DefaultHasher::new();
    feed_text(&mut hasher, id);
    hasher.finish()
}

/// The upper-case hexadecimal digit for a value below 16.
pub open spec fn hex_upper(n: int) -> char {
    if n == 0 {
        '0'
    } else if n == 1 {
        '1'
    } else if n == 2 {
        '2'
    } else if n == 3 {
        '3'
    } else if n == 4 {
        '4'
    } else if n == 5 {
        '5'
    } else if n == 6 {
        '6'
    } else if n == 7 {
        '7'
    } else if n == 8 {
        '8'
    } else if n == 9 {
        '9'
    } else if n == 10 {
        'A'
    } else if n == 11 {
        'B'
    } else if n == 12 {
        'C'
    } else if n == 13 {
        'D'
    } else if n == 14 {
        'E'
    } else {
        'F'
    }
}

/// An octet as two upper-case hexadecimal digits.
pub open spec fn octet_text(octet: u8) -> Seq<char> {
    seq![hex_upper(octet as int / 16), hex_upper(octet as int % 16)]
}

/// The octet of `hash` that starts at bit `shift`.
pub open spec fn octet_at(hash: u64, shift: u64) -> u8 {
    ((hash >> shift) & 0xFF) as u8
}

/// The address for a hash: `AA:FC` and the octets at bits 24, 16, 8 and 0,
/// separated by colons.
pub open spec fn mac_text(hash: u64) -> Seq<char> {
    "AA:FC"@ + seq![':'] + octet_text(octet_at(hash, 24)) + seq![':'] + octet_text(
        octet_at(hash, 16),
    ) + seq![':'] + octet_text(octet_at(hash, 8)) + seq![':'] + octet_text(octet_at(hash, 0))
}

/// The address of the instance `id`.
pub open spec fn mac_of(id: Seq<char>) -> Seq<char> {
    mac_text(id_hash(id))
}

fn hex_digit(n: u8) -> (digit: &'static str)
    requires
        n < 16,
    ensures
        digit@ == seq![hex_upper(n as int)],
{
    proof {
        reveal_strlit("0");
        reveal_strlit("1");
        reveal_strlit("2");
        reveal_strlit("3");
        reveal_strlit("4");
        reveal_strlit("5");
        reveal_strlit("6");
        reveal_strlit("7");
        reveal_strlit("8");
        reveal_strlit("9");
        reveal_strlit("A");
        reveal_strlit("B");
        reveal_strlit("C");
        reveal_strlit("D");
        reveal_strlit("E");
        reveal_strlit("F");
    }
    let digit = if n == 0 {
        "0"
    } else if n == 1 {
        "1"
    } else if n == 2 {
        "2"
    } else if n == 3 {
        "3"
    } else if n == 4 {
        "4"
    } else if n == 5 {
        "5"
    } else if n == 6 {
        "6"
    } else if n == 7 {
        "7"
    } else if n == 8 {
        "8"
    } else if n == 9 {
        "9"
    } else if n == 10 {
        "A"
    } else if n == 11 {
        "B"
    } else if n == 12 {
        "C"
    } else if n == 13 {
        "D"
    } else if n == 14 {
        "E"
    } else {
        "F"
    };
    digit
}

fn append_octet(text: &mut String, hash: u64, shift: u64)
    requires
        shift < 64,
    ensures
        final(text)@ == old(text)@ + seq![':'] + octet_text(octet_at(hash, shift)),
{
    let masked: u64 = (hash >> shift) & 0xFF;
    assert(masked < 256) by (bit_vector)
        requires
            masked == (hash >> shift) & 0xFF,
    ;
    let octet: u8 = masked as u8;
    text.append(":");
    text.append(hex_digit(octet / 16));
    text.append(hex_digit(octet % 16));
    proof {
        reveal_strlit(":");
    }
}

/// The address that belongs to a hash value.
pub fn mac_from_hash(hash: u64) -> (mac: String)
    ensures
        mac@ == mac_text(hash),
{
    let mut mac = String::from_str("AA:FC");
    append_octet(&mut mac, hash, 24);
    append_octet(&mut mac, hash, 16);
    append_octet(&mut mac, hash, 8);
    append_octet(&mut mac, hash, 0);
    mac
}

/// The guest's MAC address for the instance `id`.
pub fn generate_mac(id: &str) -> (mac: String)
    ensures
        mac@ == mac_of(id@),
{
    mac_from_hash(hash_id(id))
}

/// An address is always 17 characters long, begins with `AA:FC` and has a
/// colon at every third place.
pub proof fn mac_text_shape(hash: u64)
    ensures
        mac_text(hash).len() == 17,
        mac_text(hash).subrange(0, 5) == "AA:FC"@,
        forall|i: int| 0 <= i < 5 ==> #[trigger] mac_text(hash)[3 * i + 2] == ':',
{
    reveal_strlit("AA:FC");
}

/// The same id always gets the same address.
pub proof fn mac_is_deterministic(a: Seq<char>, b: Seq<char>)
    requires
        a == b,
    ensures
        mac_of(a) == mac_of(b),
{
}

/// Different values below 16 have different digits.
proof fn hex_upper_is_injective(m: int, n: int)
    requires
        0 <= m < 16,
        0 <= n < 16,
        hex_upper(m) == hex_upper(n),
    ensures
        m == n,
{
}

/// Different octets have different texts.
proof fn octet_text_is_injective(x: u8, y: u8)
    requires
        octet_text(x) == octet_text(y),
    ensures
        x == y,
{
    hex_upper_is_injective(x as int / 16, y as int / 16);
    hex_upper_is_injective(x as int % 16, y as int % 16);
}

/// Where each octet stands in an address.
proof fn mac_text_octets(hash: u64)
    ensures
        mac_text(hash).len() == 17,
        mac_text(hash).subrange(6, 8) == octet_text(octet_at(hash, 24)),
        mac_text(hash).subrange(9, 11) == octet_text(octet_at(hash, 16)),
        mac_text(hash).subrange(12, 14) == octet_text(octet_at(hash, 8)),
        mac_text(hash).subrange(15, 17) == octet_text(octet_at(hash, 0)),
{
    reveal_strlit("AA:FC");
}

/// Two hashes give the same address exactly when their lower 32 bits agree:
/// two ids share an address exactly when their hashes collide in those bits.
pub proof fn mac_collides_with_low_bits(a: u64, b: u64)
    ensures
        mac_text(a) == mac_text(b) <==> (a & 0xFFFF_FFFF) == (b & 0xFFFF_FFFF),
{
    if (a & 0xFFFF_FFFF) == (b & 0xFFFF_FFFF) {
        assert(((a >> 24) & 0xFF) == ((b >> 24) & 0xFF) && ((a >> 16) & 0xFF) == ((b >> 16)
            & 0xFF) && ((a >> 8) & 0xFF) == ((b >> 8) & 0xFF) && ((a >> 0) & 0xFF) == ((b >> 0)
            & 0xFF)) by (bit_vector)
            requires
                (a & 0xFFFF_FFFF) == (b & 0xFFFF_FFFF),
        ;
    }
    if mac_text(a) == mac_text(b) {
        mac_text_octets(a);
        mac_text_octets(b);
        octet_text_is_injective(octet_at(a, 24), octet_at(b, 24));
        octet_text_is_injective(octet_at(a, 16), octet_at(b, 16));
        octet_text_is_injective(octet_at(a, 8), octet_at(b, 8));
        octet_text_is_injective(octet_at(a, 0), octet_at(b, 0));
        assert((a & 0xFFFF_FFFF) == (b & 0xFFFF_FFFF)) by (bit_vector)
            requires
                ((a >> 24) & 0xFF) as u8 == ((b >> 24) & 0xFF) as u8,
                ((a >> 16) & 0xFF) as u8 == ((b >> 16) & 0xFF) as u8,
                ((a >> 8) & 0xFF) as u8 == ((b >> 8) & 0xFF) as u8,
                ((a >> 0) & 0xFF) as u8 == ((b >> 0) & 0xFF) as u8,
        ;
    }
}

} // verus!
