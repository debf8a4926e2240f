//! Vectors: a count, then that many items of one kind.

use crate::decoder::cursor::{
    after, byte_at, lemma_repeat_done, lemma_repeat_step, reads, repeat_at, viewed, viewed_items,
    Decoder, DecoderResult, Parse,
};
use crate::decoder::values::{decode_u32, u32_at, vector_at};
use crate::types::{lemma_views_push, views};
use vstd::prelude::*;

verus! {

/// What can stand in a vector of the binary format: a type with a model, the grammar of
/// one item, and the reader that follows that grammar.
pub trait Item: View + Sized {
    /// The item at `pos`.
    spec fn at(bytes: Seq<u8>, pos: int) -> Parse<Self::V>;

    /// Reads one item.
    fn decode(decoder: &mut Decoder) -> (r: DecoderResult<Self>)
        ensures
            reads(
                *old(decoder),
                *final(decoder),
                viewed(r),
                Self::at(old(decoder).bytes@, old(decoder).offset as int),
            ),
    ;
}

/// The grammar of an item as a reader of items.
pub open spec fn item_reader<T: Item>() -> spec_fn(Seq<u8>, int) -> Parse<T::V> {
    |bytes: Seq<u8>, pos: int| T::at(bytes, pos)
}

/// The vector of items at `pos`.
pub open spec fn items_at<T: Item>(bytes: Seq<u8>, pos: int) -> Parse<Seq<T::V>> {
    vector_at(bytes, pos, item_reader::<T>())
}

impl Item for u8 {
    open spec fn at(bytes: Seq<u8>, pos: int) -> Parse<u8> {
        byte_at(bytes, pos)
    }

    fn decode(decoder: &mut Decoder) -> (r: DecoderResult<u8>) {
        decoder.eat_byte()
    }
}

impl Item for u32 {
    open spec fn at(bytes: Seq<u8>, pos: int) -> Parse<u32> {
        u32_at(bytes, pos)
    }

    fn decode(decoder: &mut Decoder) -> (r: DecoderResult<u32>) {
        decode_u32(decoder)
    }
}

/// Reads a vector: a `u32` count, then that many items.
#[verifier::loop_isolation(false)]
pub fn decode_vector<T: Item>(decoder: &mut Decoder) -> (r: DecoderResult<Vec<T>>)
    ensures
        reads(
            *old(decoder),
            *final(decoder),
            viewed_items(r),
            items_at::<T>(old(decoder).bytes@, old(decoder).offset as int),
        ),
{
    let ghost bytes = decoder.bytes@;
    let count = decode_u32(decoder)?;
    let ghost whole = repeat_at(bytes, decoder.offset as int, count as nat, item_reader::<T>());
    let mut items: Vec<T> = Vec::new();
    proof {
        assert(views(items@) + whole->Ok_0.0 =~= whole->Ok_0.0);
    }
    for i in 0..count
        invariant
            decoder.bytes@ == bytes,
            whole == after(
                views(items@),
                repeat_at(bytes, decoder.offset as int, (count - i) as nat, item_reader::<T>()),
            ),
    {
        proof {
            lemma_repeat_step(
                bytes,
                decoder.offset as int,
                (count - i) as nat,
                item_reader::<T>(),
                views(items@),
            );
        }
        let item = T::decode(decoder)?;
        proof {
            lemma_views_push(items@, item);
        }
        items.push(item);
    }
    proof {
        lemma_repeat_done(bytes, decoder.offset as int, item_reader::<T>(), views(items@));
    }
    Ok(items)
}

} // verus!
