use vstd::prelude::*;

use crate::text::{decimal, decimal_string, join3, upper_hex, upper_hex_string};

verus! {

/// Reasons a BER-TLV element cannot be read or written.
#[derive(Debug, Clone, Copy, PartialEq, Eq)]
pub enum TlvError {
    /// A multi-byte tag ended before its final byte.
    TruncatedTag,
    /// A tag needed more than four bytes.
    TagTooLong,
    /// The element ended before its length byte.
    MissingLength,
    /// The indefinite length form (0x80) was used.
    IndefiniteLength,
    /// A long-form length used more bytes than a `usize` holds.
    LengthTooLarge,
    /// A long-form length ended before all of its bytes.
    TruncatedLength,
    /// The declared length does not fit the address space.
    LengthOverflow,
    /// The value is shorter than its declared length.
    TruncatedValue { declared: usize, available: usize },
    /// A tag above 0xFFFFFF cannot be encoded.
    UnencodableTag { tag: u32 },
    /// A value longer than 0xFFFF bytes cannot be encoded.
    UnencodableLength { length: usize },
}

impl TlvError {
    pub open spec fn spec_message(self) -> Seq<char> {
        match self {
            TlvError::TruncatedTag => "truncated multi-byte BER-TLV tag"@,
            TlvError::TagTooLong => "BER-TLV tags larger than four bytes are unsupported"@,
            TlvError::MissingLength => "missing BER-TLV length"@,
            TlvError::IndefiniteLength => "indefinite BER-TLV lengths are unsupported"@,
            TlvError::LengthTooLarge => "BER-TLV length is too large for this platform"@,
            TlvError::TruncatedLength => "truncated BER-TLV long-form length"@,
            TlvError::LengthOverflow => "BER-TLV value length overflow"@,
            TlvError::TruncatedValue { declared, available } => "truncated BER-TLV value: declared "@
                + decimal(declared as nat) + " byte(s), only "@ + decimal(available as nat)
                + " available"@,
            TlvError::UnencodableTag { tag } => "BER-TLV tag "@ + upper_hex(tag as nat)
                + " is too large"@,
            TlvError::UnencodableLength { length } => "BER-TLV value length "@ + decimal(
                length as nat,
            ) + " is too large"@,
        }
    }

    /// The error as a sentence.
    pub fn message(&self) -> (text: String)
        ensures
            text@ == self.spec_message(),
    {
        match self {
            TlvError::TruncatedTag => String::from_str("truncated multi-byte BER-TLV tag"),
            TlvError::TagTooLong => String::from_str(
                "BER-TLV tags larger than four bytes are unsupported",
            ),
            TlvError::MissingLength => String::from_str("missing BER-TLV length"),
            TlvError::IndefiniteLength => String::from_str(
                "indefinite BER-TLV lengths are unsupported",
            ),
            TlvError::LengthTooLarge => String::from_str(
                "BER-TLV length is too large for this platform",
            ),
            TlvError::TruncatedLength => String::from_str("truncated BER-TLV long-form length"),
            TlvError::LengthOverflow => String::from_str("BER-TLV value length overflow"),
            TlvError::TruncatedValue { declared, available } => {
                let mut text = join3(
                    "truncated BER-TLV value: declared ",
                    decimal_string(*declared as u64).as_str(),
                    " byte(s), only ",
                );
                text.append(decimal_string(*available as u64).as_str());
                text.append(" available");
                text
            },
            TlvError::UnencodableTag { tag } => join3(
                "BER-TLV tag ",
                upper_hex_string(*tag).as_str(),
                " is too large",
            ),
            TlvError::UnencodableLength { length } => join3(
                "BER-TLV value length ",
                decimal_string(*length as u64).as_str(),
                " is too large",
            ),
        }
    }
}

/// One BER-TLV element borrowed from its input.
#[derive(Debug)]
pub struct Tlv<'a> {
    pub tag: u32,
    pub value: &'a [u8],
    /// Number of input bytes taken by the whole element.
    pub total_length: usize,
}

/// Appends one byte to a tag accumulator the way a 32-bit left shift by
/// eight followed by an OR does: the high byte falls out.
pub open spec fn shift_in(tag: u32, byte: u8) -> u32 {
    ((tag as int * 256 + byte as int) % 0x1_0000_0000) as u32
}

/// Reads the subsequent bytes of a multi-byte tag starting at `offset`.
/// The result is the tag and the offset just after it.
pub open spec fn tag_tail(data: Seq<u8>, offset: int, tag: u32) -> Result<(u32, int), TlvError>
    decreases data.len() - offset,
{
    if offset < 0 || offset >= data.len() {
        Err(TlvError::TruncatedTag)
    } else {
        let byte = data[offset];
        let next = shift_in(tag, byte);
        if byte < 0x80 {
            Ok((next, offset + 1))
        } else if offset + 1 >= 4 {
            Err(TlvError::TagTooLong)
        } else {
            tag_tail(data, offset + 1, next)
        }
    }
}

/// The tag of a non-empty element and the offset of its length byte.
pub open spec fn spec_tag(data: Seq<u8>) -> Result<(u32, int), TlvError>
    recommends
        data.len() > 0,
{
    if data[0] % 32 == 31 {
        tag_tail(data, 1, data[0] as u32)
    } else {
        Ok((data[0] as u32, 1))
    }
}

/// The unsigned big-endian value of a byte sequence.
pub open spec fn be_value(bytes: Seq<u8>) -> nat
    decreases bytes.len(),
{
    if bytes.len() == 0 {
        0
    } else {
        be_value(bytes.drop_last()) * 256 + bytes.last() as nat
    }
}

/// The number of bytes in a `usize`.
pub open spec fn usize_bytes() -> int {
    usize::BITS as int / 8
}

/// The declared value length at `offset` and the offset of the value.
pub open spec fn spec_length(data: Seq<u8>, offset: int) -> Result<(int, int), TlvError> {
    if offset < 0 || offset >= data.len() {
        Err(TlvError::MissingLength)
    } else {
        let first = data[offset];
        if first < 0x80 {
            Ok((first as int, offset + 1))
        } else {
            let count = first as int - 0x80;
            if count == 0 {
                Err(TlvError::IndefiniteLength)
            } else if count > usize_bytes() {
                Err(TlvError::LengthTooLarge)
            } else if offset + 1 + count > data.len() {
                Err(TlvError::TruncatedLength)
            } else {
                let value = be_value(data.subrange(offset + 1, offset + 1 + count));
                if value > usize::MAX {
                    Err(TlvError::LengthOverflow)
                } else {
                    Ok((value as int, offset + 1 + count))
                }
            }
        }
    }
}

/// The first BER-TLV element of `data`: its tag and the bounds of its value.
/// The value ends where the element ends.
pub open spec fn spec_parse_tlv(data: Seq<u8>) -> Result<Option<(u32, int, int)>, TlvError> {
    if data.len() == 0 {
        Ok(None)
    } else {
        match spec_tag(data) {
            Err(error) => Err(error),
            Ok((tag, length_offset)) => match spec_length(data, length_offset) {
                Err(error) => Err(error),
                Ok((length, value_offset)) => {
                    if value_offset + length > usize::MAX {
                        Err(TlvError::LengthOverflow)
                    } else if value_offset + length > data.len() {
                        Err(
                            TlvError::TruncatedValue {
                                declared: length as usize,
                                available: (data.len() - value_offset) as usize,
                            },
                        )
                    } else {
                        Ok(Some((tag, value_offset, value_offset + length)))
                    }
                },
            },
        }
    }
}

/// Whether an executable parse result agrees with `spec_parse_tlv`.
pub open spec fn parse_matches(data: Seq<u8>, result: Result<Option<Tlv>, TlvError>) -> bool {
    match (result, spec_parse_tlv(data)) {
        (Ok(None), Ok(None)) => true,
        (Ok(Some(tlv)), Ok(Some((tag, start, end)))) => {
            &&& tlv.tag == tag
            &&& tlv.value@ == data.subrange(start, end)
            &&& tlv.total_length == end
        },
        (Err(a), Err(b)) => a == b,
        _ => false,
    }
}

proof fn lemma_be_value_bound(bytes: Seq<u8>)
    ensures
        be_value(bytes) < pow256(bytes.len()),
    decreases bytes.len(),
{
    if bytes.len() > 0 {
        lemma_be_value_bound(bytes.drop_last());
        assert(pow256(bytes.len()) == pow256((bytes.len() - 1) as nat) * 256);
    }
}

spec fn pow256(n: nat) -> nat
    decreases n,
{
    if n == 0 {
        1
    } else {
        pow256((n - 1) as nat) * 256
    }
}

/// Reads the first BER-TLV element of `data`.
///
/// Returns `None` for empty input. A tag is at most four bytes, gathered
/// into 32 bits: a third subsequent byte that announces yet another is
/// refused as too large. Lengths use the short or long definite form.
pub fn parse_tlv(data: &[u8]) -> (result: Result<Option<Tlv<'_>>, TlvError>)
    ensures
        parse_matches(data@, result),
{
    if data.len() == 0 {
        return Ok(None);
    }
    let mut offset: usize = 0;
    let first_tag_byte = data[offset];
    offset = offset + 1;
    let mut tag: u32 = first_tag_byte as u32;
    assert(first_tag_byte & 0x1F == 0x1F <==> first_tag_byte % 32 == 31) by (bit_vector);
    if first_tag_byte & 0x1F == 0x1F {
        loop
            invariant_except_break
                1 <= offset <= 3,
                spec_tag(data@) == tag_tail(data@, offset as int, tag),
            invariant
                offset <= data@.len(),
                data@[0] % 32 == 31,
            ensures
                spec_tag(data@) == Ok::<(u32, int), TlvError>((tag, offset as int)),
                offset <= data@.len(),
            decreases 5 - offset,
        {
            if offset >= data.len() {
                return Err(TlvError::TruncatedTag);
            }
            let byte = data[offset];
            offset = offset + 1;
            let ghost previous = tag;
            assert(((tag << 8u32) | (byte as u32)) == ((tag as int * 256 + byte as int)
                % 0x1_0000_0000) as u32) by (bit_vector);
            tag = (tag << 8u32) | (byte as u32);
            assert(byte & 0x80 == 0 <==> byte < 0x80) by (bit_vector);
            if byte & 0x80 == 0 {
                break;
            }
            if offset >= 4 {
                return Err(TlvError::TagTooLong);
            }
        }
    }
    proof {
        assert(spec_tag(data@) == Ok::<(u32, int), TlvError>((tag, offset as int)));
    }
    if offset >= data.len() {
        return Err(TlvError::MissingLength);
    }
    let first_length_byte = data[offset];
    offset = offset + 1;
    let value_length: usize;
    assert(first_length_byte & 0x80 == 0 <==> first_length_byte < 0x80) by (bit_vector);
    if first_length_byte & 0x80 == 0 {
        value_length = first_length_byte as usize;
    } else {
        assert(first_length_byte & 0x7F == first_length_byte - 0x80) by (bit_vector)
            requires
                first_length_byte >= 0x80,
        ;
        let length_byte_count = (first_length_byte & 0x7F) as usize;
        if length_byte_count == 0 {
            return Err(TlvError::IndefiniteLength);
        }
        if length_byte_count > (usize::BITS / 8) as usize {
            return Err(TlvError::LengthTooLarge);
        }
        if length_byte_count > data.len() - offset {
            return Err(TlvError::TruncatedLength);
        }
        let start = offset;
        let end = offset + length_byte_count;
        let mut length: usize = 0;
        let mut index = start;
        while index < end
            invariant
                start <= index <= end <= data@.len(),
                length as nat == be_value(data@.subrange(start as int, index as int)),
                end - start <= usize_bytes(),
            decreases end - index,
        {
            let ghost before = data@.subrange(start as int, index as int);
            assert(data@.subrange(start as int, index + 1).drop_last() == before);
            proof {
                lemma_be_value_bound(before);
                lemma_pow256_fits(before.len());
            }
            let byte = data[index];
            // With at most `usize_bytes()` bytes read, the value never
            // exceeds the range of `usize`.
            length = length * 256 + byte as usize;
            index = index + 1;
        }
        proof {
            lemma_be_value_bound(data@.subrange(start as int, end as int));
            lemma_pow256_fits_all((end - start) as nat);
        }
        offset = end;
        value_length = length;
    }
    if value_length > usize::MAX - offset {
        return Err(TlvError::LengthOverflow);
    }
    let value_end = offset + value_length;
    if value_end > data.len() {
        return Err(TlvError::TruncatedValue {
            declared: value_length,
            available: data.len() - offset,
        });
    }
    Ok(Some(Tlv { tag, value: vstd::slice::slice_subrange(data, offset, value_end), total_length: value_end }))
}


/// The value of the first element of `data` whose tag is `wanted`, reading
/// elements one after another until the input ends.
pub open spec fn spec_find_tlv(data: Seq<u8>, wanted: u32) -> Result<Option<Seq<u8>>, TlvError>
    decreases data.len(),
{
    if data.len() == 0 {
        Ok(None)
    } else {
        match spec_parse_tlv(data) {
            Err(error) => Err(error),
            Ok(None) => Ok(None),
            Ok(Some((tag, start, end))) => {
                if tag == wanted {
                    Ok(Some(data.subrange(start, end)))
                } else if end <= 0 || end > data.len() {
                    Ok(None)
                } else {
                    spec_find_tlv(data.subrange(end, data.len() as int), wanted)
                }
            },
        }
    }
}


/// The bytes `encode_tag` writes for `tag`: one, two or three big-endian
/// bytes; tags above 0xFFFFFF have no encoding.
pub open spec fn spec_encode_tag(tag: u32) -> Option<Seq<u8>> {
    if tag <= 0xFF {
        Some(seq![tag as u8])
    } else if tag <= 0xFFFF {
        Some(seq![(tag / 256) as u8, (tag % 256) as u8])
    } else if tag <= 0xFF_FFFF {
        Some(seq![(tag / 65536) as u8, ((tag / 256) % 256) as u8, (tag % 256) as u8])
    } else {
        None
    }
}

/// The bytes `encode_length` writes for `length`: the short form below
/// 0x80, then `81 xx`, then `82 xx xx`; longer values have no encoding.
pub open spec fn spec_encode_length(length: int) -> Option<Seq<u8>> {
    if 0 <= length < 0x80 {
        Some(seq![length as u8])
    } else if 0x80 <= length <= 0xFF {
        Some(seq![0x81u8, length as u8])
    } else if 0x100 <= length <= 0xFFFF {
        Some(seq![0x82u8, (length / 256) as u8, (length % 256) as u8])
    } else {
        None
    }
}

/// The complete element `append_tlv` writes for `tag` and `value`.
pub open spec fn spec_encode_tlv(tag: u32, value: Seq<u8>) -> Option<Seq<u8>> {
    match (spec_encode_tag(tag), spec_encode_length(value.len() as int)) {
        (Some(tag_bytes), Some(length_bytes)) => Some(tag_bytes + length_bytes + value),
        _ => None,
    }
}

/// Whether the bytes written for `tag` read back as exactly that tag: a
/// single byte must not announce a multi-byte tag, and a multi-byte tag must
/// mark every byte but its last as continued.
pub open spec fn ber_tag_consistent(tag: u32) -> bool {
    match spec_encode_tag(tag) {
        Some(bytes) => {
            if bytes.len() == 1 {
                bytes[0] % 32 != 31
            } else if bytes.len() == 2 {
                bytes[0] % 32 == 31 && bytes[1] < 0x80
            } else {
                bytes[0] % 32 == 31 && bytes[1] >= 0x80 && bytes[2] < 0x80
            }
        },
        None => false,
    }
}

/// Writing an element and reading it back gives the same tag and value,
/// whatever follows the element.
pub proof fn lemma_tlv_round_trip(tag: u32, value: Seq<u8>, rest: Seq<u8>)
    requires
        ber_tag_consistent(tag),
        spec_encode_tlv(tag, value) is Some,
    ensures
        ({
            let encoded = spec_encode_tlv(tag, value).unwrap();
            let header = encoded.len() - value.len();
            &&& spec_parse_tlv(encoded + rest) == Ok::<Option<(u32, int, int)>, TlvError>(
                Some((tag, header, header + value.len())),
            )
            &&& (encoded + rest).subrange(header, header + value.len()) == value
        }),
{
    let tag_bytes = spec_encode_tag(tag).unwrap();
    let length_bytes = spec_encode_length(value.len() as int).unwrap();
    let data = tag_bytes + length_bytes + value + rest;
    assert(spec_encode_tlv(tag, value).unwrap() + rest == data);
    let t = tag as int;
    assert(t == (t / 256) * 256 + t % 256);
    assert(t / 256 == (t / 65536) * 256 + (t / 256) % 256);
    if tag_bytes.len() == 1 {
        assert(data[0] == tag_bytes[0]);
        assert(spec_tag(data) == Ok::<(u32, int), TlvError>((tag, 1)));
    } else if tag_bytes.len() == 2 {
        assert(data[0] == tag_bytes[0] && data[1] == tag_bytes[1]);
        assert(shift_in(data[0] as u32, data[1]) == tag);
        assert(spec_tag(data) == Ok::<(u32, int), TlvError>((tag, 2)));
    } else {
        assert(data[0] == tag_bytes[0] && data[1] == tag_bytes[1] && data[2] == tag_bytes[2]);
        assert(shift_in(data[0] as u32, data[1]) == t / 256);
        assert(shift_in(shift_in(data[0] as u32, data[1]), data[2]) == tag);
        assert(tag_tail(data, 2, shift_in(data[0] as u32, data[1])) == Ok::<(u32, int), TlvError>(
            (tag, 3),
        ));
        assert(spec_tag(data) == Ok::<(u32, int), TlvError>((tag, 3)));
    }
    let h = tag_bytes.len() as int;
    let n = value.len() as int;
    assert(data[h] == length_bytes[0]);
    if length_bytes.len() == 1 {
        assert(spec_length(data, h) == Ok::<(int, int), TlvError>((n, h + 1)));
    } else if length_bytes.len() == 2 {
        let sub = data.subrange(h + 1, h + 2);
        assert(sub =~= seq![n as u8]);
        assert(sub.drop_last() =~= Seq::<u8>::empty());
        assert(be_value(sub.drop_last()) == 0);
        assert(sub.last() == n as u8);
        assert(be_value(sub) == be_value(sub.drop_last()) * 256 + sub.last() as nat);
        assert(be_value(sub) == n);
        assert(spec_length(data, h) == Ok::<(int, int), TlvError>((n, h + 2)));
    } else {
        let sub = data.subrange(h + 1, h + 3);
        assert(sub =~= seq![(n / 256) as u8, (n % 256) as u8]);
        assert(sub.drop_last() =~= seq![(n / 256) as u8]);
        assert(sub.drop_last().drop_last() =~= Seq::<u8>::empty());
        assert(0 <= n / 256 <= 255);
        let d = sub.drop_last();
        assert(d.last() == (n / 256) as u8);
        assert(be_value(d.drop_last()) == 0);
        assert(be_value(d) == be_value(d.drop_last()) * 256 + d.last() as nat);
        assert(be_value(sub.drop_last()) == n / 256);
        assert(n == (n / 256) * 256 + n % 256);
        assert(be_value(sub) == n);
        assert(spec_length(data, h) == Ok::<(int, int), TlvError>((n, h + 3)));
    }
    assert(data.subrange(h + length_bytes.len(), h + length_bytes.len() + n) =~= value);
}

proof fn lemma_tag_tail_offset(data: Seq<u8>, offset: int, tag: u32)
    requires
        tag_tail(data, offset, tag) is Ok,
    ensures
        tag_tail(data, offset, tag)->Ok_0.1 > offset,
        tag_tail(data, offset, tag)->Ok_0.1 <= data.len(),
    decreases data.len() - offset,
{
    if 0 <= offset < data.len() && data[offset] >= 0x80 && offset + 1 < 4 {
        lemma_tag_tail_offset(data, offset + 1, shift_in(tag, data[offset]));
    }
}

/// A parsed element always takes at least its tag and length bytes, and
/// never more than the input.
pub proof fn lemma_parse_tlv_bounds(data: Seq<u8>)
    requires
        spec_parse_tlv(data) matches Ok(Some(_)),
    ensures
        spec_parse_tlv(data) matches Ok(Some((tag, start, end))) && 2 <= start <= end
            <= data.len(),
{
    if data[0] % 32 == 31 {
        lemma_tag_tail_offset(data, 1, data[0] as u32);
    }
}

/// Finds the value of the first element of `data` tagged `wanted`.
///
/// Elements are read from the start of `data` one after another; the search
/// stops at the end of the input.
pub fn find_tlv(data: &[u8], wanted_tag: u32) -> (result: Result<Option<&[u8]>, TlvError>)
    ensures
        match (result, spec_find_tlv(data@, wanted_tag)) {
            (Ok(Some(value)), Ok(Some(expected))) => value@ == expected,
            (Ok(None), Ok(None)) => true,
            (Err(a), Err(b)) => a == b,
            _ => false,
        },
{
    let mut remaining = data;
    while remaining.len() > 0
        invariant
            spec_find_tlv(data@, wanted_tag) == spec_find_tlv(remaining@, wanted_tag),
        ensures
            spec_find_tlv(data@, wanted_tag) == Ok::<Option<Seq<u8>>, TlvError>(None),
        decreases remaining@.len(),
    {
        let parsed = parse_tlv(remaining);
        let tlv = match parsed {
            Err(error) => {
                return Err(error);
            },
            Ok(None) => {
                break;
            },
            Ok(Some(tlv)) => tlv,
        };
        proof {
            lemma_parse_tlv_bounds(remaining@);
        }
        if tlv.tag == wanted_tag {
            return Ok(Some(tlv.value));
        }
        remaining = vstd::slice::slice_subrange(remaining, tlv.total_length, remaining.len());
    }
    Ok(None)
}

proof fn lemma_pow256_fits(n: nat)
    requires
        n < usize_bytes(),
    ensures
        pow256(n) * 256 <= usize::MAX + 1,
{
    lemma_pow256_fits_all(n + 1);
}

proof fn lemma_pow256_fits_all(n: nat)
    requires
        n <= usize_bytes(),
    ensures
        pow256(n) <= usize::MAX + 1,
{
    assert(usize::BITS == 32 || usize::BITS == 64);
    if usize::BITS == 32 {
        reveal_with_fuel(pow256, 5);
        assert(pow256(4) == 0x1_0000_0000);
        lemma_pow256_mono(n, 4);
    } else {
        reveal_with_fuel(pow256, 9);
        assert(pow256(8) == 0x1_0000_0000_0000_0000);
        lemma_pow256_mono(n, 8);
    }
}

proof fn lemma_pow256_mono(a: nat, b: nat)
    requires
        a <= b,
    ensures
        pow256(a) <= pow256(b),
    decreases b,
{
    if a < b {
        lemma_pow256_mono(a, (b - 1) as nat);
    }
}

proof fn lemma_tag_tail_extends(data: Seq<u8>, extra: Seq<u8>, offset: int, tag: u32)
    requires
        tag_tail(data, offset, tag) is Ok,
    ensures
        tag_tail(data + extra, offset, tag) == tag_tail(data, offset, tag),
    decreases data.len() - offset,
{
    let byte = data[offset];
    assert((data + extra)[offset] == byte);
    if byte >= 0x80 && offset + 1 < 4 {
        lemma_tag_tail_extends(data, extra, offset + 1, shift_in(tag, byte));
    }
}

/// Bytes after an element do not change how it is read: the first element
/// of `data` is read the same from `data` followed by anything.
pub proof fn lemma_parse_tlv_ignores_what_follows(data: Seq<u8>, extra: Seq<u8>)
    requires
        spec_parse_tlv(data) matches Ok(Some(_)),
    ensures
        spec_parse_tlv(data + extra) == spec_parse_tlv(data),
{
    let whole = data + extra;
    assert(whole[0] == data[0]);
    if data[0] % 32 == 31 {
        lemma_tag_tail_extends(data, extra, 1, data[0] as u32);
    }
    assert(spec_tag(whole) == spec_tag(data));
    let length_offset = spec_tag(data)->Ok_0.1;
    let first = data[length_offset];
    assert(whole[length_offset] == first);
    if first >= 0x80 {
        let count = first as int - 0x80;
        assert(whole.subrange(length_offset + 1, length_offset + 1 + count) =~= data.subrange(
            length_offset + 1,
            length_offset + 1 + count,
        ));
    }
    assert(spec_length(whole, length_offset) == spec_length(data, length_offset));
}

/// Searching passes over every element whose tag is another: when the
/// data is a well-formed element with some other tag (and any value, an
/// empty one too) followed by `rest`, the search gives what searching
/// `rest` gives; when the element has the wanted tag, its value is found.
pub proof fn lemma_find_tlv_skips_other_elements(
    tag: u32,
    value: Seq<u8>,
    rest: Seq<u8>,
    wanted: u32,
)
    requires
        ber_tag_consistent(tag),
        spec_encode_tlv(tag, value) is Some,
    ensures
        tag != wanted ==> spec_find_tlv(spec_encode_tlv(tag, value).unwrap() + rest, wanted)
            == spec_find_tlv(rest, wanted),
        tag == wanted ==> spec_find_tlv(spec_encode_tlv(tag, value).unwrap() + rest, wanted)
            == Ok::<Option<Seq<u8>>, TlvError>(Some(value)),
{
    let encoded = spec_encode_tlv(tag, value).unwrap();
    let data = encoded + rest;
    lemma_tlv_round_trip(tag, value, rest);
    assert(data.len() > 0);
    assert(data.subrange(encoded.len() as int, data.len() as int) =~= rest);
}

} // verus!
