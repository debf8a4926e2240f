//! The cursor over the input, and what it means for a reader to follow a grammar.

use crate::types::views;
use vstd::prelude::*;

verus! {

/// The message of the error that a read past the end of the input gives.
pub const UNEXPECTED_END: &'static str = "Unexpected end of file";

/// A cursor over the bytes of a module: the input and the offset of the next byte to read.
#[derive(Debug, Copy, Clone)]
pub struct Decoder<'a> {
    pub bytes: &'a [u8],
    pub offset: usize,
}

/// Why decoding stopped: the offset of the cursor at that moment, and a message.
#[derive(Debug, PartialEq, Eq)]
pub struct DecoderError {
    pub offset: usize,
    pub message: String,
}

pub type DecoderResult<T> = Result<T, DecoderError>;

/// The model of a [`DecoderError`].
pub struct Fault {
    pub offset: int,
    pub message: Seq<char>,
}

impl View for DecoderError {
    type V = Fault;

    open spec fn view(&self) -> Fault {
        Fault { offset: self.offset as int, message: self.message@ }
    }
}

/// What a reader finds at a position of the input: a value and the position behind it, or
/// a fault.
pub type Parse<T> = Result<(T, int), Fault>;

/// The fault at `offset` with the given message.
pub open spec fn fault<T>(offset: int, message: &str) -> Parse<T> {
    Err(Fault { offset, message: message@ })
}

/// The byte at `pos`, if the input has one there.
pub open spec fn byte_at(bytes: Seq<u8>, pos: int) -> Parse<u8> {
    if 0 <= pos < bytes.len() {
        Ok((bytes[pos], pos + 1))
    } else {
        fault(pos, UNEXPECTED_END)
    }
}

/// `count` items one behind the other from `pos` on, each found by `item`.
pub open spec fn repeat_at<T>(
    bytes: Seq<u8>,
    pos: int,
    count: nat,
    item: spec_fn(Seq<u8>, int) -> Parse<T>,
) -> Parse<Seq<T>>
    decreases count,
{
    if count == 0 {
        Ok((Seq::empty(), pos))
    } else {
        match item(bytes, pos) {
            Err(f) => Err(f),
            Ok((first, next)) => match repeat_at(bytes, next, (count - 1) as nat, item) {
                Err(f) => Err(f),
                Ok((rest, end)) => Ok((seq![first] + rest, end)),
            },
        }
    }
}

/// What a reader of a sequence finds when `done` has been read and `rest` is what follows.
pub open spec fn after<T>(done: Seq<T>, rest: Parse<Seq<T>>) -> Parse<Seq<T>> {
    match rest {
        Ok((items, end)) => Ok((done + items, end)),
        Err(f) => Err(f),
    }
}

/// Reading one more item: a fault there is the fault of the whole sequence, and a value
/// goes behind what has been read.
pub proof fn lemma_repeat_step<T>(
    bytes: Seq<u8>,
    pos: int,
    count: nat,
    item: spec_fn(Seq<u8>, int) -> Parse<T>,
    done: Seq<T>,
)
    requires
        count > 0,
    ensures
        match item(bytes, pos) {
            Err(f) => after(done, repeat_at(bytes, pos, count, item)) == Err::<
                (Seq<T>, int),
                Fault,
            >(f),
            Ok((value, next)) => after(done, repeat_at(bytes, pos, count, item)) == after(
                done.push(value),
                repeat_at(bytes, next, (count - 1) as nat, item),
            ),
        },
{
    if let Ok((value, next)) = item(bytes, pos) {
        if let Ok((rest, end)) = repeat_at(bytes, next, (count - 1) as nat, item) {
            assert(done + (seq![value] + rest) =~= done.push(value) + rest);
        }
    }
}

/// When no item is left, what has been read is the sequence.
pub proof fn lemma_repeat_done<T>(
    bytes: Seq<u8>,
    pos: int,
    item: spec_fn(Seq<u8>, int) -> Parse<T>,
    done: Seq<T>,
)
    ensures
        after(done, repeat_at(bytes, pos, 0, item)) == Ok::<(Seq<T>, int), Fault>((done, pos)),
{
    assert(done + Seq::<T>::empty() =~= done);
}

/// A reader that started on `before` has done what `expected` says: it left the input as
/// it was; on success it returned the expected value and stands behind it, on failure it
/// returned the expected fault and stands at the fault's offset.
pub open spec fn reads<T>(
    before: Decoder,
    after: Decoder,
    got: DecoderResult<T>,
    expected: Parse<T>,
) -> bool {
    &&& after.bytes@ == before.bytes@
    &&& match expected {
        Ok((value, next)) => got == Ok::<T, DecoderError>(value) && after.offset == next,
        Err(fault) => got is Err && got->Err_0@ == fault && after.offset == fault.offset,
    }
}

/// The result of a reader with each value replaced by its model.
pub open spec fn viewed<T: View>(got: DecoderResult<T>) -> DecoderResult<T::V> {
    match got {
        Ok(value) => Ok(value@),
        Err(error) => Err(error),
    }
}

/// The result of a reader of a vector, each item replaced by its model.
pub open spec fn viewed_items<T: View>(got: DecoderResult<Vec<T>>) -> DecoderResult<Seq<T::V>> {
    match got {
        Ok(items) => Ok(views(items@)),
        Err(error) => Err(error),
    }
}

impl<'a> Decoder<'a> {
    /// A cursor at the start of `bytes`.
    pub fn new(bytes: &'a [u8]) -> (decoder: Decoder<'a>)
        ensures
            decoder.bytes@ == bytes@,
            decoder.offset == 0,
    {
        Decoder { bytes, offset: 0 }
    }

    /// Reads one byte, or fails at the end of the input.
    pub fn eat_byte(&mut self) -> (r: DecoderResult<u8>)
        ensures
            reads(*old(self), *final(self), r, byte_at(old(self).bytes@, old(self).offset as int)),
    {
        if self.offset < self.bytes.len() {
            let byte = self.bytes[self.offset];
            self.offset += 1;
            Ok(byte)
        } else {
            Err(self.produce_error(UNEXPECTED_END))
        }
    }

    /// The next byte, if there is one; the cursor stays where it is.
    pub fn pick_byte(&self) -> (r: Option<u8>)
        ensures
            r == if self.offset < self.bytes@.len() {
                Some(self.bytes@[self.offset as int])
            } else {
                None
            },
    {
        if self.offset < self.bytes.len() {
            Some(self.bytes[self.offset])
        } else {
            None
        }
    }

    /// Steps over the next byte if it is `expected`, and says whether it did.
    pub fn match_byte(&mut self, expected: u8) -> (r: bool)
        ensures
            final(self).bytes@ == old(self).bytes@,
            r == (old(self).offset < old(self).bytes@.len() && old(self).bytes@[old(
                self,
            ).offset as int] == expected),
            final(self).offset == if r {
                old(self).offset + 1
            } else {
                old(self).offset as int
            },
    {
        if self.offset < self.bytes.len() && self.bytes[self.offset] == expected {
            self.offset += 1;
            true
        } else {
            false
        }
    }

    /// Steps over the next byte, if there is one.
    pub fn step(&mut self)
        ensures
            final(self).bytes@ == old(self).bytes@,
            final(self).offset == if old(self).offset < old(self).bytes@.len() {
                old(self).offset + 1
            } else {
                old(self).offset as int
            },
    {
        if self.offset < self.bytes.len() {
            self.offset += 1;
        }
    }

    /// Whether the cursor stands `size` bytes behind `start`.
    pub fn is_behind(&self, start: usize, size: u32) -> (r: bool)
        ensures
            r == (self.offset == start + size),
    {
        self.offset >= start && self.offset - start == size as usize
    }

    /// The error with `message` at the cursor's offset.
    pub fn produce_error(&self, message: &str) -> (error: DecoderError)
        ensures
            error@ == (Fault { offset: self.offset as int, message: message@ }),
    {
        DecoderError { offset: self.offset, message: message.to_owned() }
    }
}

} // verus!
