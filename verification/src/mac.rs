//! The MAC-address strategy: canonical formatting of a MAC address into an
//! identifier, and the query for the primary interface's address.
//!
//! The canonical form is the fixed tag `MAC-` followed by the address bytes
//! as uppercase hexadecimal digits with no separators; when no address is
//! obtainable the sentinel form `MAC-UNKNOWN` is produced instead, never an
//! error.

use vstd::prelude::*;
use crate::outcome::Identifier;
use crate::text::ascii_bytes_to_string;

verus! {

/// The fixed tag that namespaces MAC-derived identifiers against other
/// strategies' outputs.
pub open spec fn mac_tag_bytes() -> Seq<u8> {
    seq![77u8, 65u8, 67u8, 45u8]
}

/// The sentinel identifier produced when no MAC address is obtainable.
pub open spec fn mac_unknown_id_bytes() -> Seq<u8> {
    mac_tag_bytes() + seq![85u8, 78u8, 75u8, 78u8, 79u8, 87u8, 78u8]
}

/// The uppercase hexadecimal digit for the value `n`.
pub open spec fn hex_byte_of(n: u8) -> u8
    recommends
        n < 16,
{
    if n < 10 {
        (48u8 + n) as u8
    } else {
        (65u8 + (n - 10)) as u8
    }
}

/// The address bytes `b` as uppercase hexadecimal, two digits per byte,
/// no separators.
pub open spec fn mac_hex_bytes(b: Seq<u8>) -> Seq<u8>
    decreases b.len(),
{
    if b.len() == 0 {
        Seq::<u8>::empty()
    } else {
        mac_hex_bytes(b.drop_last()) + seq![
            hex_byte_of((b.last() / 16) as u8),
            hex_byte_of((b.last() % 16) as u8),
        ]
    }
}

/// The canonical identifier bytes for an optional MAC address.
pub open spec fn mac_id_bytes(m: Option<Seq<u8>>) -> Seq<u8> {
    match m {
        Some(b) => mac_tag_bytes() + mac_hex_bytes(b),
        None => mac_unknown_id_bytes(),
    }
}

/// The canonical identifier, as characters, for an optional MAC address.
pub open spec fn mac_identifier_chars(m: Option<Seq<u8>>) -> Seq<char> {
    mac_id_bytes(m).map_values(|b: u8| b as char)
}

/// A well-formed optional MAC address: six bytes when present.
pub open spec fn mac_opt_wf(m: Option<Seq<u8>>) -> bool {
    m matches Some(b) ==> b.len() == 6
}

/// The abstract value of an optional MAC address.
pub open spec fn mac_bytes_view(m: Option<[u8; 6]>) -> Option<Seq<u8>> {
    match m {
        Some(a) => Some(a@),
        None => None,
    }
}

/// Hexadecimal digits are ASCII, and each byte yields two of them.
proof fn lemma_mac_hex_bytes_ascii(b: Seq<u8>)
    ensures
        mac_hex_bytes(b).len() == 2 * b.len(),
        forall|i: int| 0 <= i < mac_hex_bytes(b).len() ==> mac_hex_bytes(b)[i] < 128,
    decreases b.len(),
{
    if b.len() > 0 {
        lemma_mac_hex_bytes_ascii(b.drop_last());
    }
}

/// The identifier bytes are ASCII and include at least the tag.
proof fn lemma_mac_id_bytes_ascii(m: Option<Seq<u8>>)
    ensures
        mac_id_bytes(m).len() >= 4,
        forall|i: int| 0 <= i < mac_id_bytes(m).len() ==> mac_id_bytes(m)[i] < 128,
{
    match m {
        Some(b) => {
            lemma_mac_hex_bytes_ascii(b);
        },
        None => {
        },
    }
}

/// Every MAC-derived identifier is non-empty and starts with the `MAC-`
/// tag, so no other strategy's output can be mistaken for one.
pub proof fn lemma_mac_identifier_namespaced(m: Option<Seq<u8>>)
    ensures
        mac_identifier_chars(m).len() >= 4,
        mac_identifier_chars(m).subrange(0, 4) =~= mac_tag_chars(),
{
    lemma_mac_id_bytes_ascii(m);
}

/// The uppercase hexadecimal digit for the value `n`.
fn hex_byte(n: u8) -> (r: u8)
    requires
        n < 16,
    ensures
        r == hex_byte_of(n),
{
    if n < 10 {
        48u8 + n
    } else {
        65u8 + (n - 10)
    }
}

/// Formats an optional MAC address as its canonical identifier: `MAC-`
/// followed by twelve uppercase hexadecimal digits, or `MAC-UNKNOWN` when
/// the address is absent. Total: never an error.
pub fn mac_identifier(mac: Option<[u8; 6]>) -> (r: Identifier)
    ensures
        r@ == mac_identifier_chars(mac_bytes_view(mac)),
{
    let mut out: Vec<u8> = Vec::new();
    out.push(77u8);
    out.push(65u8);
    out.push(67u8);
    out.push(45u8);
    proof {
        assert(out@ =~= mac_tag_bytes());
    }
    match mac {
        None => {
            out.push(85u8);
            out.push(78u8);
            out.push(75u8);
            out.push(78u8);
            out.push(79u8);
            out.push(87u8);
            out.push(78u8);
            proof {
                assert(out@ =~= mac_unknown_id_bytes());
            }
        },
        Some(bytes) => {
            proof {
                assert(mac_hex_bytes(bytes@.take(0)) =~= Seq::<u8>::empty());
                assert(out@ =~= mac_tag_bytes() + mac_hex_bytes(bytes@.take(0)));
            }
            let mut i: usize = 0;
            while i < 6
                invariant
                    i <= 6,
                    out@ == mac_tag_bytes() + mac_hex_bytes(bytes@.take(i as int)),
                decreases 6 - i,
            {
                let b = bytes[i];
                out.push(hex_byte(b / 16));
                out.push(hex_byte(b % 16));
                proof {
                    assert(bytes@.take(i + 1).drop_last() =~= bytes@.take(i as int));
                    assert(bytes@.take(i + 1).last() == bytes@[i as int]);
                    assert(out@ =~= mac_tag_bytes() + mac_hex_bytes(bytes@.take(i + 1)));
                }
                i = i + 1;
            }
            proof {
                assert(bytes@.take(6) =~= bytes@);
            }
        },
    }
    proof {
        lemma_mac_id_bytes_ascii(mac_bytes_view(mac));
        assert(out@ == mac_id_bytes(mac_bytes_view(mac)));
    }
    let text = ascii_bytes_to_string(out);
    Identifier::new(text)
}

/// Uppercases the lowercase hexadecimal digits and leaves every other
/// character alone.
pub open spec fn upper_hex_char(c: char) -> char {
    match c {
        'a' => 'A',
        'b' => 'B',
        'c' => 'C',
        'd' => 'D',
        'e' => 'E',
        'f' => 'F',
        _ => c,
    }
}

/// The textual MAC `s` normalized: colon separators removed and
/// hexadecimal digits uppercased.
pub open spec fn normalized_mac_chars(s: Seq<char>) -> Seq<char>
    decreases s.len(),
{
    if s.len() == 0 {
        Seq::<char>::empty()
    } else {
        let rest = normalized_mac_chars(s.drop_last());
        if s.last() == ':' {
            rest
        } else {
            rest.push(upper_hex_char(s.last()))
        }
    }
}

/// The `MAC-` tag, as characters.
pub open spec fn mac_tag_chars() -> Seq<char> {
    mac_tag_bytes().map_values(|b: u8| b as char)
}

/// The normalized byte for one character of a textual MAC address.
fn normalized_byte(c: char) -> (r: u8)
    requires
        c <= '\u{7f}',
    ensures
        r < 128,
        r as char == upper_hex_char(c),
{
    match c {
        'a' => 65u8,
        'b' => 66u8,
        'c' => 67u8,
        'd' => 68u8,
        'e' => 69u8,
        'f' => 70u8,
        _ => c as u8,
    }
}

/// Normalizes the textual form of a MAC address into its canonical
/// identifier: colon separators removed, hexadecimal digits uppercased,
/// and the result prefixed with the fixed `MAC-` tag.
pub fn normalize_mac_text(s: &str) -> (r: Identifier)
    requires
        s.is_ascii(),
    ensures
        r@ == mac_tag_chars() + normalized_mac_chars(s@),
{
    let len = s.unicode_len();
    let mut out: Vec<u8> = Vec::new();
    out.push(77u8);
    out.push(65u8);
    out.push(67u8);
    out.push(45u8);
    proof {
        assert(out@ =~= mac_tag_bytes());
        assert(normalized_mac_chars(s@.take(0)) =~= Seq::<char>::empty());
        assert(out@.map_values(|b: u8| b as char) =~= mac_tag_chars() + normalized_mac_chars(
            s@.take(0),
        ));
    }
    let mut i: usize = 0;
    while i < len
        invariant
            i <= len,
            len == s@.len(),
            s.is_ascii(),
            out@.len() >= 4,
            forall|j: int| 0 <= j < out@.len() ==> out@[j] < 128,
            out@.map_values(|b: u8| b as char) == mac_tag_chars() + normalized_mac_chars(
                s@.take(i as int),
            ),
        decreases len - i,
    {
        let c = s.get_char(i);
        proof {
            assert(s@.take(i + 1).drop_last() =~= s@.take(i as int));
            assert(s@.take(i + 1).last() == s@[i as int]);
        }
        if c != ':' {
            let b = normalized_byte(c);
            let ghost old_out = out@;
            out.push(b);
            proof {
                assert(normalized_mac_chars(s@.take(i + 1)) == normalized_mac_chars(
                    s@.take(i as int),
                ).push(upper_hex_char(c)));
                assert(out@ == old_out.push(b));
                assert(out@.map_values(|b: u8| b as char) =~= old_out.map_values(
                    |b: u8| b as char,
                ).push(b as char));
                assert(out@.map_values(|b: u8| b as char) =~= mac_tag_chars()
                    + normalized_mac_chars(s@.take(i + 1)));
            }
        } else {
            proof {
                assert(normalized_mac_chars(s@.take(i + 1)) == normalized_mac_chars(
                    s@.take(i as int),
                ));
                assert(out@.map_values(|b: u8| b as char) =~= mac_tag_chars()
                    + normalized_mac_chars(s@.take(i + 1)));
            }
        }
        i = i + 1;
    }
    proof {
        assert(s@.take(len as int) =~= s@);
    }
    let text = ascii_bytes_to_string(out);
    Identifier::new(text)
}

/// Relies on `mac_address::get_mac_address`: yields the MAC address bytes of
/// the first network device that has one (ignoring local loopback), and
/// `None` when no such device is found or the lookup fails.
#[verifier::external_body]
fn query_primary_mac() -> (r: Option<[u8; 6]>) {
    match mac_address::get_mac_address() {
        Ok(Some(ma)) => Some(ma.bytes()),
        _ => None,
    }
}

/// Executes the MAC strategy: enumerates the machine's interfaces, selects
/// the primary address, and formats it canonically. Absorbs every internal
/// failure into the sentinel identifier; never an error.
pub fn mac_strategy_identifier() -> (r: Identifier)
    ensures
        exists|m: Option<Seq<u8>>|
            mac_opt_wf(m) && #[trigger] mac_identifier_chars(m) == r@,
{
    let mac = query_primary_mac();
    let id = mac_identifier(mac);
    proof {
        assert(mac_opt_wf(mac_bytes_view(mac)));
        assert(mac_identifier_chars(mac_bytes_view(mac)) == id@);
    }
    id
}

} // verus!
