use vstd::prelude::*;
use vstd::string::StringSliceAdditionalSpecFns;
use vstd::utf8::encode_utf8;

use crate::contract::bytes_eq;

verus! {

/// The base32 alphabet of cash addresses, indexed by 5-bit value.
pub open spec fn charset() -> Seq<char> {
    seq![
        'q', 'p', 'z', 'r', 'y', '9', 'x', '8',
        'g', 'f', '2', 't', 'v', 'd', 'w', '0',
        's', '3', 'j', 'n', '5', '4', 'k', 'h',
        'c', 'e', '6', 'm', 'u', 'a', '7', 'l',
    ]
}

pub open spec fn generator(i: int) -> u64 {
    if i == 0 {
        0x98f2bc8e61u64
    } else if i == 1 {
        0x79b76d99e2u64
    } else if i == 2 {
        0xf33e5fb3c4u64
    } else if i == 3 {
        0xae2eabe2a8u64
    } else {
        0x1e4f43e470u64
    }
}

/// One step of the cash-address checksum over the 5-bit value `d`.
pub open spec fn polymod_step(c: u64, d: u8) -> u64 {
    let c0 = (c >> 35u64) as u8;
    let c1 = ((c & 0x07ffffffffu64) << 5u64) ^ (d as u64);
    let c2 = if c0 & 0x01u8 != 0 { c1 ^ generator(0) } else { c1 };
    let c3 = if c0 & 0x02u8 != 0 { c2 ^ generator(1) } else { c2 };
    let c4 = if c0 & 0x04u8 != 0 { c3 ^ generator(2) } else { c3 };
    let c5 = if c0 & 0x08u8 != 0 { c4 ^ generator(3) } else { c4 };
    if c0 & 0x10u8 != 0 { c5 ^ generator(4) } else { c5 }
}

pub open spec fn polymod_acc(v: Seq<u8>) -> u64
    decreases v.len(),
{
    if v.len() == 0 {
        1
    } else {
        polymod_step(polymod_acc(v.drop_last()), v.last())
    }
}

/// The checksum polynomial of `v`, finished by the final xor with one.
pub open spec fn spec_polymod(v: Seq<u8>) -> u64 {
    polymod_acc(v) ^ 1u64
}

/// The low five bits of each byte of the prefix, followed by a zero separator.
pub open spec fn spec_prefix_expand(prefix: Seq<u8>) -> Seq<u8> {
    prefix.map_values(|b: u8| b & 0x1fu8).push(0u8)
}

pub open spec fn zeros(n: nat) -> Seq<u8> {
    Seq::new(n, |i: int| 0u8)
}

/// The eight 5-bit checksum values of `payload` under `prefix`, most significant first.
pub open spec fn spec_checksum(prefix: Seq<u8>, payload: Seq<u8>) -> Seq<u8> {
    let poly = spec_polymod(spec_prefix_expand(prefix) + payload + zeros(8));
    Seq::new(8, |i: int| ((poly >> (5 * (7 - i)) as u64) & 0x1fu64) as u8)
}

pub open spec fn spec_b32(values: Seq<u8>) -> Seq<char> {
    values.map_values(|v: u8| charset()[v as int])
}

/// Bit `k` of `data` read as one big-endian bit string; zero past its end.
pub open spec fn bit_at(data: Seq<u8>, k: int) -> u8 {
    if 0 <= k < 8 * data.len() {
        (data[k / 8] >> (7 - k % 8) as u8) & 1u8
    } else {
        0
    }
}

/// The `i`-th 5-bit group of the bit string of `data`, padded with zero bits.
pub open spec fn group5(data: Seq<u8>, i: int) -> u8 {
    (bit_at(data, 5 * i) << 4u8) | (bit_at(data, 5 * i + 1) << 3u8) | (bit_at(data, 5 * i + 2) << 2u8)
        | (bit_at(data, 5 * i + 3) << 1u8) | bit_at(data, 5 * i + 4)
}

/// The bytes of `data` regrouped into 5-bit values, the last one padded with zero bits.
pub open spec fn spec_to_5bit(data: Seq<u8>) -> Seq<u8> {
    Seq::new(((8 * data.len() + 4) / 5) as nat, |i: int| group5(data, i))
}

pub open spec fn spec_payload(hash: Seq<u8>, version_bit: u8) -> Seq<u8> {
    spec_to_5bit(seq![version_bit] + hash)
}

/// The cash address of `hash`: the prefix, a colon, then the base32 text of the
/// 5-bit payload followed by its checksum.
pub open spec fn spec_encode(hash: Seq<u8>, prefix: &str, version_bit: u8) -> Seq<char> {
    let payload = spec_payload(hash, version_bit);
    prefix@ + seq![':'] + spec_b32(payload + spec_checksum(prefix.spec_bytes(), payload))
}

/// Relies on bech32::convert_bits from 8-bit to 5-bit values with padding:
/// the bits are regrouped most significant first, and the last group is padded
/// with zero bits; an 8-bit input never fails.
#[verifier::external_body]
fn convert_8_to_5(data: &Vec<u8>) -> (r: Vec<u8>)
    ensures
        r@ == spec_to_5bit(data@),
{
    bech32::convert_bits(data.as_slice(), 8, 5, true).unwrap()
}

/// Relies on String::push: the character is appended.
#[verifier::external_body]
fn push_char(s: &mut String, c: char)
    ensures
        final(s)@ == old(s)@.push(c),
{
    s.push(c)
}

fn charset_at(i: u8) -> (r: char)
    requires
        i < 32,
    ensures
        r == charset()[i as int],
{
    let cs: [char; 32] = [
        'q', 'p', 'z', 'r', 'y', '9', 'x', '8',
        'g', 'f', '2', 't', 'v', 'd', 'w', '0',
        's', '3', 'j', 'n', '5', '4', 'k', 'h',
        'c', 'e', '6', 'm', 'u', 'a', '7', 'l',
    ];
    assert(cs@ == charset());
    cs[i as usize]
}

/// The BCH checksum polynomial over 5-bit values.
pub fn polymod(v: &[u8]) -> (r: u64)
    ensures
        r == spec_polymod(v@),
{
    let mut c: u64 = 1;
    let mut i: usize = 0;
    while i < v.len()
        invariant
            i <= v@.len(),
            c == polymod_acc(v@.subrange(0, i as int)),
        decreases v@.len() - i,
    {
        let d = v[i];
        let c0: u8 = (c >> 35) as u8;
        c = ((c & 0x07ffffffff) << 5) ^ (d as u64);
        if (c0 & 0x01) != 0 {
            c = c ^ 0x98f2bc8e61;
        }
        if (c0 & 0x02) != 0 {
            c = c ^ 0x79b76d99e2;
        }
        if (c0 & 0x04) != 0 {
            c = c ^ 0xf33e5fb3c4;
        }
        if (c0 & 0x08) != 0 {
            c = c ^ 0xae2eabe2a8;
        }
        if (c0 & 0x10) != 0 {
            c = c ^ 0x1e4f43e470;
        }
        assert(v@.subrange(0, i + 1).drop_last() == v@.subrange(0, i as int));
        i = i + 1;
    }
    assert(v@.subrange(0, v@.len() as int) == v@);
    c ^ 1
}

/// The low five bits of each prefix byte, then a zero.
pub fn prefix_expand(prefix: &str) -> (r: Vec<u8>)
    ensures
        r@ == spec_prefix_expand(prefix.spec_bytes()),
{
    let bytes = prefix.as_bytes();
    let mut out: Vec<u8> = Vec::new();
    let mut i: usize = 0;
    while i < bytes.len()
        invariant
            i <= bytes@.len(),
            bytes@ == prefix.spec_bytes(),
            out@ == bytes@.subrange(0, i as int).map_values(|b: u8| b & 0x1fu8),
        decreases bytes@.len() - i,
    {
        out.push(bytes[i] & 0x1f);
        i = i + 1;
        assert(out@ =~= bytes@.subrange(0, i as int).map_values(|b: u8| b & 0x1fu8));
    }
    out.push(0);
    assert(bytes@.subrange(0, bytes@.len() as int) == bytes@);
    out
}

/// The eight 5-bit checksum values of `payload` under `prefix`.
pub fn calculate_checksum(prefix: &str, payload: &[u8]) -> (r: Vec<u8>)
    ensures
        r@ == spec_checksum(prefix.spec_bytes(), payload@),
{
    let mut combined = prefix_expand(prefix);
    let ghost expanded = combined@;
    let mut i: usize = 0;
    while i < payload.len()
        invariant
            i <= payload@.len(),
            combined@ == expanded + payload@.subrange(0, i as int),
        decreases payload@.len() - i,
    {
        combined.push(payload[i]);
        i = i + 1;
        assert(combined@ =~= expanded + payload@.subrange(0, i as int));
    }
    let mut k: usize = 0;
    while k < 8
        invariant
            k <= 8,
            combined@ == expanded + payload@ + zeros(k as nat),
        decreases 8 - k,
    {
        combined.push(0);
        k = k + 1;
        assert(combined@ =~= expanded + payload@ + zeros(k as nat));
    }
    let poly = polymod(combined.as_slice());
    let mut out: Vec<u8> = Vec::new();
    let mut j: usize = 0;
    while j < 8
        invariant
            j <= 8,
            expanded == spec_prefix_expand(prefix.spec_bytes()),
            poly == spec_polymod(expanded + payload@ + zeros(8)),
            out@ == spec_checksum(prefix.spec_bytes(), payload@).subrange(0, j as int),
        decreases 8 - j,
    {
        let shift: u64 = 5 * (7 - j as u64);
        assert(((poly >> shift) & 0x1fu64) < 32u64) by (bit_vector);
        out.push(((poly >> shift) & 0x1f) as u8);
        j = j + 1;
        assert(out@ =~= spec_checksum(prefix.spec_bytes(), payload@).subrange(0, j as int));
    }
    out
}

/// The base32 text of a sequence of 5-bit values.
pub fn b32encode(inputs: &[u8]) -> (r: String)
    requires
        forall|i: int| 0 <= i < inputs@.len() ==> inputs@[i] < 32,
    ensures
        r@ == spec_b32(inputs@),
{
    let mut out = String::new();
    let mut i: usize = 0;
    while i < inputs.len()
        invariant
            i <= inputs@.len(),
            forall|k: int| 0 <= k < inputs@.len() ==> inputs@[k] < 32,
            out@ == spec_b32(inputs@.subrange(0, i as int)),
        decreases inputs@.len() - i,
    {
        let c = charset_at(inputs[i]);
        push_char(&mut out, c);
        i = i + 1;
        assert(out@ =~= spec_b32(inputs@.subrange(0, i as int)));
    }
    assert(inputs@.subrange(0, inputs@.len() as int) == inputs@);
    out
}

proof fn lemma_bit_at_bit(data: Seq<u8>, k: int)
    ensures
        bit_at(data, k) <= 1,
{
    if 0 <= k < 8 * data.len() {
        let b = data[k / 8];
        let s = (7 - k % 8) as u8;
        assert((b >> s) & 1u8 <= 1u8) by (bit_vector);
    }
}

proof fn lemma_group5_bound(data: Seq<u8>, i: int)
    ensures
        group5(data, i) < 32,
{
    lemma_bit_at_bit(data, 5 * i);
    lemma_bit_at_bit(data, 5 * i + 1);
    lemma_bit_at_bit(data, 5 * i + 2);
    lemma_bit_at_bit(data, 5 * i + 3);
    lemma_bit_at_bit(data, 5 * i + 4);
    let (b0, b1, b2, b3, b4) = (bit_at(data, 5 * i), bit_at(data, 5 * i + 1), bit_at(data, 5 * i + 2),
        bit_at(data, 5 * i + 3), bit_at(data, 5 * i + 4));
    assert((b0 <= 1 && b1 <= 1 && b2 <= 1 && b3 <= 1 && b4 <= 1) ==>
        ((b0 << 4u8) | (b1 << 3u8) | (b2 << 2u8) | (b3 << 1u8) | b4) < 32u8) by (bit_vector);
}

/// The cash address of `hash` under `prefix` with the given version bit.
pub fn encode(hash: &[u8], prefix: &str, version_bit: u8) -> (r: String)
    requires
        hash@.len() < 0x1000000,
    ensures
        r@ == spec_encode(hash@, prefix, version_bit),
{
    let mut data: Vec<u8> = vec![version_bit];
    let mut i: usize = 0;
    while i < hash.len()
        invariant
            i <= hash@.len(),
            data@ == seq![version_bit] + hash@.subrange(0, i as int),
        decreases hash@.len() - i,
    {
        data.push(hash[i]);
        i = i + 1;
        assert(data@ =~= seq![version_bit] + hash@.subrange(0, i as int));
    }
    assert(hash@.subrange(0, hash@.len() as int) == hash@);
    let mut payload = convert_8_to_5(&data);
    let ghost p5 = payload@;
    let checksum = calculate_checksum(prefix, payload.as_slice());
    let mut k: usize = 0;
    while k < checksum.len()
        invariant
            k <= checksum@.len(),
            payload@ == p5 + checksum@.subrange(0, k as int),
        decreases checksum@.len() - k,
    {
        payload.push(checksum[k]);
        k = k + 1;
        assert(payload@ =~= p5 + checksum@.subrange(0, k as int));
    }
    assert(checksum@.subrange(0, checksum@.len() as int) == checksum@);
    assert forall|j: int| 0 <= j < payload@.len() implies payload@[j] < 32 by {
        if j < p5.len() {
            lemma_group5_bound(data@, j);
        } else {
            let poly = spec_polymod(spec_prefix_expand(prefix.spec_bytes()) + p5 + zeros(8));
            let s = (5 * (7 - (j - p5.len()))) as u64;
            assert(((poly >> s) & 0x1fu64) < 32u64) by (bit_vector);
        }
    }
    let body = b32encode(payload.as_slice());
    let mut out = prefix.to_owned();
    let sep = ":";
    proof {
        reveal_strlit(":");
    }
    out.append(sep);
    out.append(body.as_str());
    out
}


/// The 5-bit value of a base32 character; 32 for a character outside the alphabet.
pub open spec fn char_value(c: char) -> u8 {
    if c == 'q' { 0 } else if c == 'p' { 1 } else if c == 'z' { 2 } else if c == 'r' { 3 }
    else if c == 'y' { 4 } else if c == '9' { 5 } else if c == 'x' { 6 } else if c == '8' { 7 }
    else if c == 'g' { 8 } else if c == 'f' { 9 } else if c == '2' { 10 } else if c == 't' { 11 }
    else if c == 'v' { 12 } else if c == 'd' { 13 } else if c == 'w' { 14 } else if c == '0' { 15 }
    else if c == 's' { 16 } else if c == '3' { 17 } else if c == 'j' { 18 } else if c == 'n' { 19 }
    else if c == '5' { 20 } else if c == '4' { 21 } else if c == 'k' { 22 } else if c == 'h' { 23 }
    else if c == 'c' { 24 } else if c == 'e' { 25 } else if c == '6' { 26 } else if c == 'm' { 27 }
    else if c == 'u' { 28 } else if c == 'a' { 29 } else if c == '7' { 30 } else if c == 'l' { 31 }
    else { 32 }
}

/// Bit `k` of a sequence of 5-bit values read as one bit string; zero past its end.
pub open spec fn bit5_at(values: Seq<u8>, k: int) -> u8 {
    if 0 <= k < 5 * values.len() {
        (values[k / 5] >> (4 - k % 5) as u8) & 1u8
    } else {
        0
    }
}

/// Byte `j` of the bit string of 5-bit values.
pub open spec fn byte_at(values: Seq<u8>, j: int) -> u8 {
    (bit5_at(values, 8 * j) << 7u8) | (bit5_at(values, 8 * j + 1) << 6u8) | (bit5_at(values, 8 * j + 2) << 5u8)
        | (bit5_at(values, 8 * j + 3) << 4u8) | (bit5_at(values, 8 * j + 4) << 3u8)
        | (bit5_at(values, 8 * j + 5) << 2u8) | (bit5_at(values, 8 * j + 6) << 1u8) | bit5_at(values, 8 * j + 7)
}

/// The bytes of 5-bit values regrouped without padding: `None` when five or
/// more bits are left over or a left-over bit is set.
pub open spec fn spec_from_5bit(values: Seq<u8>) -> Option<Seq<u8>> {
    let nbits = 5 * values.len();
    let m = nbits / 8;
    if nbits - 8 * m >= 5 {
        None
    } else if exists|k: int| 8 * m <= k < nbits && bit5_at(values, k) != 0 {
        None
    } else {
        Some(Seq::new(m as nat, |j: int| byte_at(values, j)))
    }
}

/// The position of the last colon before index `i`.
pub open spec fn last_colon_before(s: Seq<char>, i: int) -> Option<int>
    decreases i,
{
    if i <= 0 {
        None
    } else if s[i - 1] == ':' {
        Some(i - 1)
    } else {
        last_colon_before(s, i - 1)
    }
}

/// A cash address read back: the prefix before the last colon, the version
/// byte and the hash, when every character after the colon is in the
/// alphabet, the checksum matches and the padding is clear.
pub open spec fn spec_decode(s: Seq<char>) -> Option<(Seq<char>, u8, Seq<u8>)> {
    match last_colon_before(s, s.len() as int) {
        None => None,
        Some(k) => {
            let prefix = s.subrange(0, k);
            let body = s.subrange(k + 1, s.len() as int);
            let values = body.map_values(|c: char| char_value(c));
            let n = values.len();
            if exists|i: int| 0 <= i < n && values[i] >= 32 {
                None
            } else if n < 8 {
                None
            } else if spec_checksum(encode_utf8(prefix), values.subrange(0, n - 8)) != values.subrange(n - 8, n as int) {
                None
            } else {
                match spec_from_5bit(values.subrange(0, n - 8)) {
                    Some(data) => if data.len() == 0 {
                        None
                    } else {
                        Some((prefix, data[0], data.subrange(1, data.len() as int)))
                    },
                    None => None,
                }
            }
        },
    }
}

proof fn lemma_char_value_inverts() 
    ensures
        forall|v: int| 0 <= v < 32 ==> char_value(#[trigger] charset()[v]) == v as u8,
        forall|v: int| 0 <= v < 32 ==> #[trigger] charset()[v] != ':',
{
}

proof fn lemma_group_bits(data: Seq<u8>, k: int)
    requires
        0 <= k < 5 * spec_to_5bit(data).len(),
    ensures
        bit5_at(spec_to_5bit(data), k) == bit_at(data, k),
{
    let i = k / 5;
    let m = k % 5;
    assert(5 * i + m == k);
    lemma_bit_at_bit(data, 5 * i);
    lemma_bit_at_bit(data, 5 * i + 1);
    lemma_bit_at_bit(data, 5 * i + 2);
    lemma_bit_at_bit(data, 5 * i + 3);
    lemma_bit_at_bit(data, 5 * i + 4);
    let (b0, b1, b2, b3, b4) = (bit_at(data, 5 * i), bit_at(data, 5 * i + 1), bit_at(data, 5 * i + 2),
        bit_at(data, 5 * i + 3), bit_at(data, 5 * i + 4));
    let g = group5(data, i);
    assert(g == (b0 << 4u8) | (b1 << 3u8) | (b2 << 2u8) | (b3 << 1u8) | b4);
    if m == 0 {
        assert((b0 <= 1 && b1 <= 1 && b2 <= 1 && b3 <= 1 && b4 <= 1) ==>
            (((b0 << 4u8) | (b1 << 3u8) | (b2 << 2u8) | (b3 << 1u8) | b4) >> 4u8) & 1u8 == b0) by (bit_vector);
    } else if m == 1 {
        assert((b0 <= 1 && b1 <= 1 && b2 <= 1 && b3 <= 1 && b4 <= 1) ==>
            (((b0 << 4u8) | (b1 << 3u8) | (b2 << 2u8) | (b3 << 1u8) | b4) >> 3u8) & 1u8 == b1) by (bit_vector);
    } else if m == 2 {
        assert((b0 <= 1 && b1 <= 1 && b2 <= 1 && b3 <= 1 && b4 <= 1) ==>
            (((b0 << 4u8) | (b1 << 3u8) | (b2 << 2u8) | (b3 << 1u8) | b4) >> 2u8) & 1u8 == b2) by (bit_vector);
    } else if m == 3 {
        assert((b0 <= 1 && b1 <= 1 && b2 <= 1 && b3 <= 1 && b4 <= 1) ==>
            (((b0 << 4u8) | (b1 << 3u8) | (b2 << 2u8) | (b3 << 1u8) | b4) >> 1u8) & 1u8 == b3) by (bit_vector);
    } else {
        assert((b0 <= 1 && b1 <= 1 && b2 <= 1 && b3 <= 1 && b4 <= 1) ==>
            (((b0 << 4u8) | (b1 << 3u8) | (b2 << 2u8) | (b3 << 1u8) | b4) >> 0u8) & 1u8 == b4) by (bit_vector);
    }
}

proof fn lemma_byte_bits(data: Seq<u8>, j: int)
    requires
        0 <= j < data.len(),
    ensures
        (bit_at(data, 8 * j) << 7u8) | (bit_at(data, 8 * j + 1) << 6u8) | (bit_at(data, 8 * j + 2) << 5u8)
            | (bit_at(data, 8 * j + 3) << 4u8) | (bit_at(data, 8 * j + 4) << 3u8)
            | (bit_at(data, 8 * j + 5) << 2u8) | (bit_at(data, 8 * j + 6) << 1u8) | bit_at(data, 8 * j + 7) == data[j],
{
    let b = data[j];
    assert forall|i: int| 0 <= i < 8 implies #[trigger] bit_at(data, 8 * j + i) == (b >> (7 - i) as u8) & 1u8 by {
        assert((8 * j + i) / 8 == j);
        assert((8 * j + i) % 8 == i);
    }
    assert(((((b >> 7u8) & 1u8) << 7u8) | (((b >> 6u8) & 1u8) << 6u8) | (((b >> 5u8) & 1u8) << 5u8)
        | (((b >> 4u8) & 1u8) << 4u8) | (((b >> 3u8) & 1u8) << 3u8) | (((b >> 2u8) & 1u8) << 2u8)
        | (((b >> 1u8) & 1u8) << 1u8) | ((b >> 0u8) & 1u8)) == b) by (bit_vector);
    assert(bit_at(data, 8 * j + 0) == (b >> 7u8) & 1u8);
    assert(bit_at(data, 8 * j + 1) == (b >> 6u8) & 1u8);
    assert(bit_at(data, 8 * j + 2) == (b >> 5u8) & 1u8);
    assert(bit_at(data, 8 * j + 3) == (b >> 4u8) & 1u8);
    assert(bit_at(data, 8 * j + 4) == (b >> 3u8) & 1u8);
    assert(bit_at(data, 8 * j + 5) == (b >> 2u8) & 1u8);
    assert(bit_at(data, 8 * j + 6) == (b >> 1u8) & 1u8);
    assert(bit_at(data, 8 * j + 7) == (b >> 0u8) & 1u8);
}

/// Regrouping 21 bytes into 5-bit values and back gives the bytes again.
proof fn lemma_regroup_round_trip(data: Seq<u8>)
    requires
        data.len() == 21,
    ensures
        spec_from_5bit(spec_to_5bit(data)) == Some(data),
{
    let values = spec_to_5bit(data);
    assert(values.len() == 34);
    assert forall|k: int| 0 <= k < 170 implies #[trigger] bit5_at(values, k) == bit_at(data, k) by {
        lemma_group_bits(data, k);
    }
    assert(!(exists|k: int| 168 <= k < 170 && bit5_at(values, k) != 0));
    assert forall|j: int| 0 <= j < 21 implies #[trigger] byte_at(values, j) == data[j] by {
        lemma_byte_bits(data, j);
        assert(bit5_at(values, 8 * j) == bit_at(data, 8 * j));
        assert(bit5_at(values, 8 * j + 1) == bit_at(data, 8 * j + 1));
        assert(bit5_at(values, 8 * j + 2) == bit_at(data, 8 * j + 2));
        assert(bit5_at(values, 8 * j + 3) == bit_at(data, 8 * j + 3));
        assert(bit5_at(values, 8 * j + 4) == bit_at(data, 8 * j + 4));
        assert(bit5_at(values, 8 * j + 5) == bit_at(data, 8 * j + 5));
        assert(bit5_at(values, 8 * j + 6) == bit_at(data, 8 * j + 6));
        assert(bit5_at(values, 8 * j + 7) == bit_at(data, 8 * j + 7));
    }
    assert(Seq::new(21, |j: int| byte_at(values, j)) =~= data);
}

proof fn lemma_b32_decodes(values: Seq<u8>)
    requires
        forall|j: int| 0 <= j < values.len() ==> values[j] < 32,
    ensures
        spec_b32(values).map_values(|c: char| char_value(c)) =~= values,
        forall|i: int| 0 <= i < values.len() ==> #[trigger] spec_b32(values)[i] != ':',
{
    lemma_char_value_inverts();
}

proof fn lemma_encoded_values(hash: Seq<u8>, prefix: &str, version_bit: u8)
    ensures
        forall|j: int| 0 <= j < (spec_payload(hash, version_bit) + spec_checksum(prefix.spec_bytes(), spec_payload(hash, version_bit))).len()
            ==> (spec_payload(hash, version_bit) + spec_checksum(prefix.spec_bytes(), spec_payload(hash, version_bit)))[j] < 32,
{
    let data = seq![version_bit] + hash;
    let payload = spec_payload(hash, version_bit);
    let checksum = spec_checksum(prefix.spec_bytes(), payload);
    assert forall|j: int| 0 <= j < payload.len() implies #[trigger] payload[j] < 32 by {
        lemma_group5_bound(data, j);
    }
    assert forall|j: int| 0 <= j < 8 implies #[trigger] checksum[j] < 32 by {
        let poly = spec_polymod(spec_prefix_expand(prefix.spec_bytes()) + payload + zeros(8));
        let sh = (5 * (7 - j)) as u64;
        assert(((poly >> sh) & 0x1fu64) < 32u64) by (bit_vector);
    }
}

/// Decoding the cash address of a 20-byte hash gives back its prefix, its
/// version byte and the hash.
#[verifier::rlimit(40)]
pub proof fn lemma_decode_encode(hash: Seq<u8>, prefix: &str, version_bit: u8)
    requires
        hash.len() == 20,
    ensures
        spec_decode(spec_encode(hash, prefix, version_bit)) == Some((prefix@, version_bit, hash)),
{
    let data = seq![version_bit] + hash;
    let payload = spec_payload(hash, version_bit);
    let checksum = spec_checksum(prefix.spec_bytes(), payload);
    let values = payload + checksum;
    let s = spec_encode(hash, prefix, version_bit);
    let k = prefix@.len() as int;
    let body = spec_b32(values);
    lemma_encoded_values(hash, prefix, version_bit);
    lemma_b32_decodes(values);
    assert(s == prefix@ + seq![':'] + body);
    assert(s[k] == ':');
    assert forall|i: int| k < i < s.len() implies s[i] != ':' by {
        assert(s[i] == body[i - k - 1]);
    }
    lemma_last_colon_skip(s, k, s.len() as int);
    assert(s.subrange(0, k) =~= prefix@);
    assert(s.subrange(k + 1, s.len() as int) =~= body);
    assert(values.len() == 42);
    assert(values.subrange(0, 34) =~= payload);
    assert(values.subrange(34, 42) =~= checksum);
    assert(prefix.spec_bytes() == encode_utf8(prefix@));
    lemma_regroup_round_trip(data);
    assert(data.subrange(1, 21) =~= hash);
}

proof fn lemma_last_colon_skip(s: Seq<char>, k: int, j: int)
    requires
        0 <= k < j <= s.len(),
        s[k] == ':',
        forall|i: int| k < i < s.len() ==> s[i] != ':',
    ensures
        last_colon_before(s, j) == Some(k),
    decreases j,
{
    if j - 1 > k {
        lemma_last_colon_skip(s, k, j - 1);
    }
}


/// Relies on bech32::convert_bits from 5-bit to 8-bit values without padding:
/// the bits are regrouped most significant first, and it fails when five or
/// more bits are left over or a left-over bit is set.
#[verifier::external_body]
fn convert_5_to_8(values: &Vec<u8>) -> (r: Option<Vec<u8>>)
    requires
        forall|i: int| 0 <= i < values@.len() ==> values@[i] < 32,
    ensures
        r matches Some(d) ==> spec_from_5bit(values@) == Some(d@),
        r is None ==> spec_from_5bit(values@) is None,
{
    bech32::convert_bits(values.as_slice(), 5, 8, false).ok()
}

fn char_value_of(c: char) -> (r: u8)
    ensures
        r == char_value(c),
{
    if c == 'q' { 0 } else if c == 'p' { 1 } else if c == 'z' { 2 } else if c == 'r' { 3 }
    else if c == 'y' { 4 } else if c == '9' { 5 } else if c == 'x' { 6 } else if c == '8' { 7 }
    else if c == 'g' { 8 } else if c == 'f' { 9 } else if c == '2' { 10 } else if c == 't' { 11 }
    else if c == 'v' { 12 } else if c == 'd' { 13 } else if c == 'w' { 14 } else if c == '0' { 15 }
    else if c == 's' { 16 } else if c == '3' { 17 } else if c == 'j' { 18 } else if c == 'n' { 19 }
    else if c == '5' { 20 } else if c == '4' { 21 } else if c == 'k' { 22 } else if c == 'h' { 23 }
    else if c == 'c' { 24 } else if c == 'e' { 25 } else if c == '6' { 26 } else if c == 'm' { 27 }
    else if c == 'u' { 28 } else if c == 'a' { 29 } else if c == '7' { 30 } else if c == 'l' { 31 }
    else { 32 }
}

fn sub_bytes(v: &Vec<u8>, from: usize, to: usize) -> (r: Vec<u8>)
    requires
        from <= to <= v@.len(),
    ensures
        r@ == v@.subrange(from as int, to as int),
{
    let mut out: Vec<u8> = Vec::new();
    let mut i = from;
    while i < to
        invariant
            from <= i <= to,
            to <= v@.len(),
            out@ == v@.subrange(from as int, i as int),
        decreases to - i,
    {
        out.push(v[i]);
        i = i + 1;
        assert(out@ =~= v@.subrange(from as int, i as int));
    }
    out
}

/// Reads a cash address back into its prefix, version byte and hash.
pub fn decode(address: &str) -> (r: Option<(String, u8, Vec<u8>)>)
    ensures
        r matches Some((p, v, h)) ==> spec_decode(address@) == Some((p@, v, h@)),
        r is None ==> spec_decode(address@) is None,
{
    let n = address.unicode_len();
    let ghost s = address@;
    let mut i: usize = n;
    let mut colon: usize = n;
    while i > 0 && colon == n
        invariant
            i <= n,
            n == s.len(),
            s == address@,
            colon == n || colon < n,
            colon == n ==> last_colon_before(s, n as int) == last_colon_before(s, i as int),
            colon < n ==> last_colon_before(s, n as int) == Some(colon as int),
        decreases i,
    {
        i = i - 1;
        if address.get_char(i) == ':' {
            colon = i;
        }
    }
    if colon == n {
        return None;
    }
    let prefix = address.substring_char(0, colon);
    let ghost body = s.subrange(colon + 1, n as int);
    let ghost all_values = body.map_values(|c: char| char_value(c));
    let mut values: Vec<u8> = Vec::new();
    let mut j: usize = colon + 1;
    while j < n
        invariant
            colon < j <= n,
            n == s.len(),
            s == address@,
            body == s.subrange(colon + 1, n as int),
            last_colon_before(s, n as int) == Some(colon as int),
            all_values == body.map_values(|c: char| char_value(c)),
            values@ == all_values.subrange(0, j - colon - 1),
            forall|k: int| 0 <= k < values@.len() ==> values@[k] < 32,
        decreases n - j,
    {
        let v = char_value_of(address.get_char(j));
        if v >= 32 {
            let ghost w = j - colon - 1;
            assert(0 <= w < all_values.len() && all_values[w] >= 32);
            assert(exists|x: int| 0 <= x < all_values.len() && all_values[x] >= 32);
            return None;
        }
        values.push(v);
        j = j + 1;
        assert(values@ =~= all_values.subrange(0, j - colon - 1));
    }
    assert(values@ =~= all_values);
    let len = values.len();
    if len < 8 {
        return None;
    }
    let payload = sub_bytes(&values, 0, len - 8);
    let checksum = sub_bytes(&values, len - 8, len);
    let expected = calculate_checksum(prefix, payload.as_slice());
    if !bytes_eq(&expected, &checksum) {
        return None;
    }
    let data = match convert_5_to_8(&payload) {
        Some(d) => d,
        None => return None,
    };
    if data.len() == 0 {
        return None;
    }
    let version = data[0];
    let hash = sub_bytes(&data, 1, data.len());
    Some((prefix.to_owned(), version, hash))
}

} // verus!
