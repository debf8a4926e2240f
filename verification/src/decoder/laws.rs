//! What holds of everything that the decoder reads.

use crate::decoder::cursor::Fault;
use crate::decoder::modules::{
    custom_sections_at, known_section_at, module_of, no_sections, preamble_at, section_head_at,
    sections_at, sections_of, Sections, SECTION_ID_TYPE,
};
use crate::decoder::values::{
    f32_at, f64_at, little_endian_at, name_at, u32_at, unsigned_leb128_at,
};
use vstd::prelude::*;

verus! {

/// The unsigned LEB128 encoding of `n` in as few bytes as it takes.
pub open spec fn leb128_encoding(n: nat) -> Seq<u8>
    decreases n,
{
    if n < 0x80 {
        seq![n as u8]
    } else {
        seq![(0x80 + n % 0x80) as u8] + leb128_encoding(n / 0x80)
    }
}

/// The `count` bytes that spell `n`, the least significant first.
pub open spec fn little_endian_encoding(n: nat, count: nat) -> Seq<u8>
    decreases count,
{
    if count == 0 {
        Seq::empty()
    } else {
        seq![(n % 0x100) as u8] + little_endian_encoding(n / 0x100, (count - 1) as nat)
    }
}

/// `encoding` stands in `bytes` at `pos`.
pub open spec fn stands_at(bytes: Seq<u8>, pos: int, encoding: Seq<u8>) -> bool {
    &&& 0 <= pos
    &&& pos + encoding.len() <= bytes.len()
    &&& bytes.subrange(pos, pos + encoding.len()) == encoding
}

proof fn lemma_stands_at_tail(bytes: Seq<u8>, pos: int, first: u8, rest: Seq<u8>)
    requires
        stands_at(bytes, pos, seq![first] + rest),
    ensures
        0 <= pos < bytes.len(),
        bytes[pos] == first,
        stands_at(bytes, pos + 1, rest),
{
    let encoding = seq![first] + rest;
    assert(bytes.subrange(pos, pos + encoding.len())[0] == encoding[0]);
    assert(bytes.subrange(pos + 1, pos + 1 + rest.len()) =~= rest) by {
        assert forall|i: int| 0 <= i < rest.len() implies bytes[pos + 1 + i] == rest[i] by {
            assert(bytes.subrange(pos, pos + encoding.len())[i + 1] == encoding[i + 1]);
        }
    }
}

proof fn lemma_leb128_round_trip(bytes: Seq<u8>, pos: int, n: nat, limit: nat)
    requires
        n < limit,
        limit == 0x1_0000_0000 || limit == 0x200_0000 || limit == 0x4_0000 || limit == 0x800
            || limit == 0x10,
        stands_at(bytes, pos, leb128_encoding(n)),
    ensures
        unsigned_leb128_at(bytes, pos, limit) == Ok::<(int, int), Fault>(
            (n as int, pos + leb128_encoding(n).len()),
        ),
    decreases n,
{
    if n < 0x80 {
        assert(bytes.subrange(pos, pos + 1)[0] == leb128_encoding(n)[0]);
    } else {
        let first = (0x80 + n % 0x80) as u8;
        lemma_stands_at_tail(bytes, pos, first, leb128_encoding(n / 0x80));
        lemma_leb128_round_trip(bytes, pos + 1, n / 0x80, limit / 0x80);
    }
}

/// Reading the LEB128 encoding of a `u32` gives the number back, and ends behind the
/// encoding.
pub proof fn lemma_u32_round_trip(bytes: Seq<u8>, pos: int, n: u32)
    requires
        stands_at(bytes, pos, leb128_encoding(n as nat)),
    ensures
        u32_at(bytes, pos) == Ok::<(u32, int), Fault>(
            (n, pos + leb128_encoding(n as nat).len()),
        ),
{
    lemma_leb128_round_trip(bytes, pos, n as nat, 0x1_0000_0000);
}

/// The encoding of `count` bytes has `count` bytes.
pub proof fn lemma_little_endian_encoding_len(n: nat, count: nat)
    ensures
        little_endian_encoding(n, count).len() == count,
    decreases count,
{
    if count > 0 {
        lemma_little_endian_encoding_len(n / 0x100, (count - 1) as nat);
    }
}

/// Reading the four bytes of a 32-bit pattern gives the pattern back, whatever it is.
pub proof fn lemma_f32_round_trip(bytes: Seq<u8>, pos: int, bits: u32)
    requires
        stands_at(bytes, pos, little_endian_encoding(bits as nat, 4)),
    ensures
        f32_at(bytes, pos) == Ok::<(u32, int), Fault>((bits, pos + 4)),
{
    let n0 = bits as nat;
    let n1 = n0 / 0x100;
    let n2 = n1 / 0x100;
    let n3 = n2 / 0x100;
    let n4 = n3 / 0x100;
    lemma_little_endian_encoding_len(n0, 4);
    lemma_little_endian_encoding_len(n1, 3);
    lemma_little_endian_encoding_len(n2, 2);
    lemma_little_endian_encoding_len(n3, 1);
    lemma_little_endian_encoding_len(n4, 0);
    lemma_stands_at_tail(bytes, pos, (n0 % 0x100) as u8, little_endian_encoding(n1, 3));
    lemma_stands_at_tail(bytes, pos + 1, (n1 % 0x100) as u8, little_endian_encoding(n2, 2));
    lemma_stands_at_tail(bytes, pos + 2, (n2 % 0x100) as u8, little_endian_encoding(n3, 1));
    lemma_stands_at_tail(bytes, pos + 3, (n3 % 0x100) as u8, little_endian_encoding(n4, 0));
    reveal_with_fuel(little_endian_at, 5);
}

/// Reading the eight bytes of a 64-bit pattern gives the pattern back, whatever it is.
pub proof fn lemma_f64_round_trip(bytes: Seq<u8>, pos: int, bits: u64)
    requires
        stands_at(bytes, pos, little_endian_encoding(bits as nat, 8)),
    ensures
        f64_at(bytes, pos) == Ok::<(u64, int), Fault>((bits, pos + 8)),
{
    let n0 = bits as nat;
    let n1 = n0 / 0x100;
    let n2 = n1 / 0x100;
    let n3 = n2 / 0x100;
    let n4 = n3 / 0x100;
    let n5 = n4 / 0x100;
    let n6 = n5 / 0x100;
    let n7 = n6 / 0x100;
    let n8 = n7 / 0x100;
    lemma_little_endian_encoding_len(n0, 8);
    lemma_little_endian_encoding_len(n1, 7);
    lemma_little_endian_encoding_len(n2, 6);
    lemma_little_endian_encoding_len(n3, 5);
    lemma_little_endian_encoding_len(n4, 4);
    lemma_little_endian_encoding_len(n5, 3);
    lemma_little_endian_encoding_len(n6, 2);
    lemma_little_endian_encoding_len(n7, 1);
    lemma_little_endian_encoding_len(n8, 0);
    lemma_stands_at_tail(bytes, pos, (n0 % 0x100) as u8, little_endian_encoding(n1, 7));
    lemma_stands_at_tail(bytes, pos + 1, (n1 % 0x100) as u8, little_endian_encoding(n2, 6));
    lemma_stands_at_tail(bytes, pos + 2, (n2 % 0x100) as u8, little_endian_encoding(n3, 5));
    lemma_stands_at_tail(bytes, pos + 3, (n3 % 0x100) as u8, little_endian_encoding(n4, 4));
    lemma_stands_at_tail(bytes, pos + 4, (n4 % 0x100) as u8, little_endian_encoding(n5, 3));
    lemma_stands_at_tail(bytes, pos + 5, (n5 % 0x100) as u8, little_endian_encoding(n6, 2));
    lemma_stands_at_tail(bytes, pos + 6, (n6 % 0x100) as u8, little_endian_encoding(n7, 1));
    lemma_stands_at_tail(bytes, pos + 7, (n7 % 0x100) as u8, little_endian_encoding(n8, 0));
    reveal_with_fuel(little_endian_at, 9);
}

/// `payload` is a stretch of `bytes`, byte for byte.
pub open spec fn is_stretch_of(payload: Seq<u8>, bytes: Seq<u8>) -> bool {
    exists|from: int, to: int|
        0 <= from <= to <= bytes.len() && payload == #[trigger] bytes.subrange(from, to)
}

/// The payload of each custom section is a stretch of `bytes`.
pub open spec fn payloads_verbatim(
    custom_sections: Seq<(Seq<char>, Seq<u8>)>,
    bytes: Seq<u8>,
) -> bool {
    forall|i: int|
        0 <= i < custom_sections.len() ==> is_stretch_of((#[trigger] custom_sections[i]).1, bytes)
}

proof fn lemma_custom_sections_verbatim(bytes: Seq<u8>, pos: int)
    ensures
        custom_sections_at(bytes, pos) matches Ok((found, _)) ==> payloads_verbatim(found, bytes),
    decreases bytes.len() - pos,
{
    if let Ok((Some(limit), start)) = section_head_at(bytes, pos, 0) {
        if let Ok((name, payload)) = name_at(bytes, start) {
            if pos < payload <= limit <= bytes.len() {
                lemma_custom_sections_verbatim(bytes, limit);
                if let Ok((rest, end)) = custom_sections_at(bytes, limit) {
                    let first = (name, bytes.subrange(payload, limit));
                    let found = seq![first] + rest;
                    assert forall|i: int| 0 <= i < found.len() implies is_stretch_of(
                        (#[trigger] found[i]).1,
                        bytes,
                    ) by {
                        if i > 0 {
                            assert(found[i] == rest[i - 1]);
                        }
                    }
                }
            }
        }
    }
}

proof fn lemma_sections_verbatim(bytes: Seq<u8>, pos: int, id: u8, sections: Sections)
    requires
        payloads_verbatim(sections.custom_sections, bytes),
    ensures
        sections_at(bytes, pos, id, sections) matches Ok((all, _)) ==> payloads_verbatim(
            all.custom_sections,
            bytes,
        ),
    decreases 12 - id,
{
    lemma_custom_sections_verbatim(bytes, pos);
    if let Ok((found, next)) = custom_sections_at(bytes, pos) {
        let with_found = Sections {
            custom_sections: sections.custom_sections + found,
            ..sections
        };
        assert forall|i: int| 0 <= i < with_found.custom_sections.len() implies is_stretch_of(
            (#[trigger] with_found.custom_sections[i]).1,
            bytes,
        ) by {
            if i < sections.custom_sections.len() {
                assert(with_found.custom_sections[i] == sections.custom_sections[i]);
            } else {
                assert(with_found.custom_sections[i] == found[i - sections.custom_sections.len()]);
            }
        }
        if id <= 11 {
            if let Ok((stored, end)) = known_section_at(bytes, next, id, with_found) {
                lemma_sections_verbatim(bytes, end, (id + 1) as u8, stored);
            }
        }
    }
}

/// The payload of each custom section of a decoded module is a stretch of the input,
/// byte for byte.
pub proof fn lemma_custom_payloads_verbatim(bytes: Seq<u8>)
    ensures
        module_of(bytes) matches Ok(module) ==> payloads_verbatim(module.custom_sections, bytes),
{
    if let Ok((_, first)) = preamble_at(bytes, 0) {
        lemma_sections_verbatim(bytes, first, SECTION_ID_TYPE, no_sections());
    }
}

/// Where bytes spell a module, the sections behind the preamble end where the input
/// ends: nothing is left unread.
pub proof fn lemma_module_consumes_input(bytes: Seq<u8>)
    ensures
        module_of(bytes) is Ok ==> (sections_of(bytes) matches Ok((_, end)) && end == bytes.len()),
{
}

/// A decoded module has as many functions as its function section has entries, and as
/// its code section has.
pub proof fn lemma_functions_match_sections(bytes: Seq<u8>)
    ensures
        module_of(bytes) matches Ok(module) ==> (sections_of(bytes) matches Ok((sections, _))
            && module.functions.len() == sections.function_indexes.len()
            && module.functions.len() == sections.codes.len()),
{
}

} // verus!
