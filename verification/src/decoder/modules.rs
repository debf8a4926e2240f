//! Sections and modules.

use crate::decoder::cursor::{
    after, byte_at, fault, reads, viewed, viewed_items, Decoder, DecoderError, DecoderResult,
    Fault, Parse, UNEXPECTED_END,
};
use crate::decoder::instructions::{decode_expression, expression_at};
use crate::decoder::types::{
    decode_global_type, decode_memory_type, decode_table_type, decode_value_type,
    global_type_at, memory_type_at, table_type_at, value_type_at,
};
use crate::decoder::values::{
    decode_name, decode_u32, lemma_unsigned_leb128_bound, name_at, u32_at,
};
use crate::decoder::vectors::{decode_vector, items_at, Item};
use crate::types::{
    instruction_views, lemma_views_push, views, CustomSection, Data, DataView, Element,
    ElementView, Export, ExportView, Expression, Function, FunctionType, FunctionView, Global,
    GlobalView, Import, ImportDescriptor, ImportView, Index, InstructionView, Memory, Module,
    ModuleView, StartFunction, Table, ValueType,
};
use vstd::prelude::*;
use vstd::slice::slice_subrange;

verus! {

// The ids of the sections.
pub const SECTION_ID_CUSTOM: u8 = 0;
pub const SECTION_ID_TYPE: u8 = 1;
pub const SECTION_ID_IMPORT: u8 = 2;
pub const SECTION_ID_FUNCTION: u8 = 3;
pub const SECTION_ID_TABLE: u8 = 4;
pub const SECTION_ID_MEMORY: u8 = 5;
pub const SECTION_ID_GLOBAL: u8 = 6;
pub const SECTION_ID_EXPORT: u8 = 7;
pub const SECTION_ID_START: u8 = 8;
pub const SECTION_ID_ELEMENT: u8 = 9;
pub const SECTION_ID_CODE: u8 = 10;
pub const SECTION_ID_DATA: u8 = 11;

// The messages of the faults in sections and modules.
pub const INVALID_SECTION_SIZE: &'static str = "Invalid section size";
pub const INVALID_IMPORT_DESCRIPTOR: &'static str = "Invalid import descriptor";
pub const INVALID_EXPORT_DESCRIPTOR: &'static str = "Invalid export descriptor";
pub const TOO_MANY_LOCALS: &'static str = "Too many locals";
pub const INVALID_CODE_SIZE: &'static str = "Invalid code size";
pub const INVALID_MAGIC: &'static str = "Invalid magic string";
pub const INVALID_VERSION: &'static str = "Invalid version number";
pub const SIZE_MISMATCH: &'static str = "Function indexes and codes size mismatch";

/// The head of the section `id` at `pos`: the id byte and the size of the contents. What
/// comes back is the position where the contents have to end, or nothing, with `pos`
/// itself, where another byte or none stands at `pos`.
pub open spec fn section_head_at(bytes: Seq<u8>, pos: int, id: u8) -> Parse<Option<int>> {
    if 0 <= pos < bytes.len() && bytes[pos] == id {
        match u32_at(bytes, pos + 1) {
            Err(f) => Err(f),
            Ok((size, start)) => Ok((Some(start + size), start)),
        }
    } else {
        Ok((None, pos))
    }
}

/// The contents of a section, which have to end at `limit`.
pub open spec fn framed<T>(contents: Parse<T>, limit: int) -> Parse<T> {
    match contents {
        Err(f) => Err(f),
        Ok((value, end)) => {
            if end == limit {
                Ok((value, end))
            } else {
                fault(end, INVALID_SECTION_SIZE)
            }
        },
    }
}

/// The section `id` at `pos` with a vector of items as its contents; no items where the
/// section is not there.
pub open spec fn item_section_at<T: Item>(bytes: Seq<u8>, pos: int, id: u8) -> Parse<Seq<T::V>> {
    match section_head_at(bytes, pos, id) {
        Err(f) => Err(f),
        Ok((None, _)) => Ok((Seq::empty(), pos)),
        Ok((Some(limit), start)) => framed(items_at::<T>(bytes, start), limit),
    }
}

/// The custom sections from `pos` on, one behind the other: each is the id byte 0, the
/// size of the contents, a name, and as payload the bytes that are left of the contents.
pub open spec fn custom_sections_at(bytes: Seq<u8>, pos: int) -> Parse<
    Seq<(Seq<char>, Seq<u8>)>,
>
    decreases bytes.len() - pos,
{
    match section_head_at(bytes, pos, SECTION_ID_CUSTOM) {
        Err(f) => Err(f),
        Ok((None, _)) => Ok((Seq::empty(), pos)),
        Ok((Some(limit), start)) => match name_at(bytes, start) {
            Err(f) => Err(f),
            Ok((name, payload)) => {
                if pos < payload <= limit <= bytes.len() {
                    match custom_sections_at(bytes, limit) {
                        Err(f) => Err(f),
                        Ok((rest, end)) => Ok(
                            (seq![(name, bytes.subrange(payload, limit))] + rest, end),
                        ),
                    }
                } else {
                    fault(payload, INVALID_SECTION_SIZE)
                }
            },
        },
    }
}

/// A reader that has done what `expected` says of a section head: see
/// [`section_head_at`]. Where the section is there, the reader hands back the position
/// where its contents start and their size.
pub open spec fn reads_head(
    before: Decoder,
    after: Decoder,
    got: DecoderResult<Option<(usize, u32)>>,
    expected: Parse<Option<int>>,
) -> bool {
    &&& after.bytes@ == before.bytes@
    &&& match expected {
        Ok((None, next)) => got == Ok::<Option<(usize, u32)>, DecoderError>(None) && after.offset
            == next,
        Ok((Some(limit), next)) => got matches Ok(Some((start, size))) && start == next && start
            + size == limit && after.offset == next,
        Err(fault) => got is Err && got->Err_0@ == fault && after.offset == fault.offset,
    }
}

/// Reads the head of the section `section_id`, if that section comes next.
pub fn decode_section(decoder: &mut Decoder, section_id: u8) -> (r: DecoderResult<
    Option<(usize, u32)>,
>)
    ensures
        reads_head(
            *old(decoder),
            *final(decoder),
            r,
            section_head_at(old(decoder).bytes@, old(decoder).offset as int, section_id),
        ),
{
    if decoder.match_byte(section_id) {
        let size = decode_u32(decoder)?;
        Ok(Some((decoder.offset, size)))
    } else {
        Ok(None)
    }
}

/// Checks that the contents of a section, which started at `start`, end at the cursor
/// after `size` bytes.
pub fn end_section(decoder: &Decoder, start: usize, size: u32) -> (r: DecoderResult<()>)
    ensures
        r is Ok <==> decoder.offset == start + size,
        r matches Err(error) ==> error@ == (Fault {
            offset: decoder.offset as int,
            message: INVALID_SECTION_SIZE@,
        }),
{
    if decoder.is_behind(start, size) {
        Ok(())
    } else {
        Err(decoder.produce_error(INVALID_SECTION_SIZE))
    }
}

/// Reads the custom sections that come next and puts them behind those in
/// `custom_sections`, each with its payload as a slice of the input. Where one of them
/// is at fault, `custom_sections` is left as it was.
#[verifier::loop_isolation(false)]
pub fn decode_custom_sections<'a>(
    decoder: &mut Decoder<'a>,
    custom_sections: &mut Vec<CustomSection<'a>>,
) -> (r: DecoderResult<()>)
    ensures
        final(decoder).bytes@ == old(decoder).bytes@,
        match custom_sections_at(old(decoder).bytes@, old(decoder).offset as int) {
            Ok((found, end)) => r is Ok && final(decoder).offset == end && views(
                final(custom_sections)@,
            ) == views(old(custom_sections)@) + found,
            Err(fault) => r is Err && r->Err_0@ == fault && final(decoder).offset == fault.offset
                && final(custom_sections)@ == old(custom_sections)@,
        },
{
    let ghost bytes = decoder.bytes@;
    let ghost base = views(custom_sections@);
    let ghost whole = custom_sections_at(bytes, decoder.offset as int);
    let ghost done = Seq::<(Seq<char>, Seq<u8>)>::empty();
    let kept = custom_sections.len();
    proof {
        assert(done + whole->Ok_0.0 =~= whole->Ok_0.0);
        assert(base + done =~= base);
        assert(custom_sections@.subrange(0, kept as int) =~= custom_sections@);
    }
    loop
        invariant
            decoder.bytes@ == bytes,
            views(custom_sections@) == base + done,
            kept <= custom_sections.len(),
            custom_sections@.subrange(0, kept as int) == old(custom_sections)@,
            whole == after(done, custom_sections_at(bytes, decoder.offset as int)),
        decreases bytes.len() - decoder.offset,
    {
        let ghost pos = decoder.offset as int;
        proof {
            lemma_unsigned_leb128_bound(bytes, pos + 1, 0x1_0000_0000);
        }
        let (start, size) = match decode_section(decoder, SECTION_ID_CUSTOM) {
            Ok(Some(head)) => head,
            Ok(None) => {
                proof {
                    assert(done + Seq::<(Seq<char>, Seq<u8>)>::empty() =~= done);
                }
                return Ok(());
            },
            Err(error) => {
                custom_sections.truncate(kept);
                return Err(error);
            },
        };
        proof {
            lemma_unsigned_leb128_bound(bytes, start as int, 0x1_0000_0000);
        }
        let name = match decode_name(decoder) {
            Ok(name) => name,
            Err(error) => {
                custom_sections.truncate(kept);
                return Err(error);
            },
        };
        let payload = decoder.offset;
        let len = decoder.bytes.len();
        if payload - start > size as usize || size as usize > len - start {
            custom_sections.truncate(kept);
            return Err(decoder.produce_error(INVALID_SECTION_SIZE));
        }
        let limit = start + size as usize;
        let contents = slice_subrange(decoder.bytes, payload, limit);
        proof {
            let section = (name@, bytes.subrange(payload as int, limit as int));
            let rest = custom_sections_at(bytes, limit as int);
            if let Ok((items, end)) = rest {
                assert(done + (seq![section] + items) =~= done.push(section) + items);
            }
            lemma_views_push(custom_sections@, (name, contents));
            assert((base + done).push(section) =~= base + done.push(section));
            assert(custom_sections@.push((name, contents)).subrange(0, kept as int)
                =~= custom_sections@.subrange(0, kept as int));
            done = done.push(section);
        }
        custom_sections.push((name, contents));
        decoder.offset = limit;
    }
}

/// Reads the section `section_id`, whose contents are a vector of items, if it comes
/// next.
pub fn decode_vector_section<T: Item>(decoder: &mut Decoder, section_id: u8) -> (r: DecoderResult<
    Vec<T>,
>)
    ensures
        reads(
            *old(decoder),
            *final(decoder),
            viewed_items(r),
            item_section_at::<T>(old(decoder).bytes@, old(decoder).offset as int, section_id),
        ),
{
    match decode_section(decoder, section_id)? {
        None => {
            let items: Vec<T> = Vec::new();
            proof {
                assert(views(items@) =~= Seq::<T::V>::empty());
            }
            Ok(items)
        },
        Some((start, size)) => {
            let items = decode_vector::<T>(decoder)?;
            end_section(decoder, start, size)?;
            Ok(items)
        },
    }
}

/// What an import brings in, at `pos`: a tag byte, then a type index, a table type, a
/// memory type or a global type.
pub open spec fn import_descriptor_at(bytes: Seq<u8>, pos: int) -> Parse<ImportDescriptor> {
    match byte_at(bytes, pos) {
        Err(f) => Err(f),
        Ok((tag, next)) => {
            if tag == 0x00 {
                match u32_at(bytes, next) {
                    Err(f) => Err(f),
                    Ok((index, end)) => Ok((ImportDescriptor::Function(index), end)),
                }
            } else if tag == 0x01 {
                match table_type_at(bytes, next) {
                    Err(f) => Err(f),
                    Ok((table_type, end)) => Ok((ImportDescriptor::Table(table_type), end)),
                }
            } else if tag == 0x02 {
                match memory_type_at(bytes, next) {
                    Err(f) => Err(f),
                    Ok((memory_type, end)) => Ok((ImportDescriptor::Memory(memory_type), end)),
                }
            } else if tag == 0x03 {
                match global_type_at(bytes, next) {
                    Err(f) => Err(f),
                    Ok((global_type, end)) => Ok((ImportDescriptor::Global(global_type), end)),
                }
            } else {
                fault(pos, INVALID_IMPORT_DESCRIPTOR)
            }
        },
    }
}

/// The import at `pos`: two names and a descriptor.
pub open spec fn import_at(bytes: Seq<u8>, pos: int) -> Parse<ImportView> {
    match name_at(bytes, pos) {
        Err(f) => Err(f),
        Ok((module, second)) => match name_at(bytes, second) {
            Err(f) => Err(f),
            Ok((name, third)) => match import_descriptor_at(bytes, third) {
                Err(f) => Err(f),
                Ok((descriptor, end)) => Ok((ImportView { module, name, descriptor }, end)),
            },
        },
    }
}

/// What is exported, at `pos`: a tag byte for the kind, then an index.
pub open spec fn export_descriptor_at(bytes: Seq<u8>, pos: int) -> Parse<Index> {
    match byte_at(bytes, pos) {
        Err(f) => Err(f),
        Ok((tag, next)) => {
            if tag > 0x03 {
                fault(pos, INVALID_EXPORT_DESCRIPTOR)
            } else {
                match u32_at(bytes, next) {
                    Err(f) => Err(f),
                    Ok((index, end)) => Ok(
                        (
                            if tag == 0x00 {
                                Index::Function(index)
                            } else if tag == 0x01 {
                                Index::Table(index)
                            } else if tag == 0x02 {
                                Index::Memory(index)
                            } else {
                                Index::Global(index)
                            },
                            end,
                        ),
                    ),
                }
            }
        },
    }
}

/// The export at `pos`: a name and a descriptor.
pub open spec fn export_at(bytes: Seq<u8>, pos: int) -> Parse<ExportView> {
    match name_at(bytes, pos) {
        Err(f) => Err(f),
        Ok((name, second)) => match export_descriptor_at(bytes, second) {
            Err(f) => Err(f),
            Ok((descriptor, end)) => Ok((ExportView { name, descriptor }, end)),
        },
    }
}

/// The table at `pos`: its type.
pub open spec fn table_at(bytes: Seq<u8>, pos: int) -> Parse<Table> {
    match table_type_at(bytes, pos) {
        Err(f) => Err(f),
        Ok((table_type, end)) => Ok((Table { table_type }, end)),
    }
}

/// The memory at `pos`: its type.
pub open spec fn memory_at(bytes: Seq<u8>, pos: int) -> Parse<Memory> {
    match memory_type_at(bytes, pos) {
        Err(f) => Err(f),
        Ok((memory_type, end)) => Ok((Memory { memory_type }, end)),
    }
}

/// The global at `pos`: its type and the expression that gives its first value.
pub open spec fn global_at(bytes: Seq<u8>, pos: int) -> Parse<GlobalView> {
    match global_type_at(bytes, pos) {
        Err(f) => Err(f),
        Ok((global_type, second)) => match expression_at(bytes, second) {
            Err(f) => Err(f),
            Ok((init, end)) => Ok((GlobalView { global_type, init }, end)),
        },
    }
}

/// The element segment at `pos`: a table index, an offset expression, a vector of
/// function indices.
pub open spec fn element_at(bytes: Seq<u8>, pos: int) -> Parse<ElementView> {
    match u32_at(bytes, pos) {
        Err(f) => Err(f),
        Ok((table, second)) => match expression_at(bytes, second) {
            Err(f) => Err(f),
            Ok((offset, third)) => match items_at::<u32>(bytes, third) {
                Err(f) => Err(f),
                Ok((init, end)) => Ok((ElementView { table, offset, init }, end)),
            },
        },
    }
}

/// The data segment at `pos`: a memory index, an offset expression, a vector of bytes.
pub open spec fn data_at(bytes: Seq<u8>, pos: int) -> Parse<DataView> {
    match u32_at(bytes, pos) {
        Err(f) => Err(f),
        Ok((data, second)) => match expression_at(bytes, second) {
            Err(f) => Err(f),
            Ok((offset, third)) => match items_at::<u8>(bytes, third) {
                Err(f) => Err(f),
                Ok((init, end)) => Ok((DataView { data, offset, init }, end)),
            },
        },
    }
}

/// The group of locals at `pos`: how many, and of which type.
pub open spec fn local_group_at(bytes: Seq<u8>, pos: int) -> Parse<(u32, ValueType)> {
    match u32_at(bytes, pos) {
        Err(f) => Err(f),
        Ok((count, second)) => match value_type_at(bytes, second) {
            Err(f) => Err(f),
            Ok((value_type, end)) => Ok(((count, value_type), end)),
        },
    }
}

/// How many locals the groups declare together.
pub open spec fn total_locals(groups: Seq<(u32, ValueType)>) -> int
    decreases groups.len(),
{
    if groups.len() == 0 {
        0
    } else {
        total_locals(groups.drop_last()) + groups.last().0
    }
}

/// The locals and the body of a function, as the code section holds them.
#[derive(Debug, PartialEq, Eq)]
pub struct Code {
    pub locals: Vec<(u32, ValueType)>,
    pub body: Expression,
}

/// The model of a [`Code`].
pub struct CodeView {
    pub locals: Seq<(u32, ValueType)>,
    pub body: Seq<InstructionView>,
}

impl View for Code {
    type V = CodeView;

    open spec fn view(&self) -> CodeView {
        CodeView { locals: self.locals@, body: instruction_views(self.body@) }
    }
}

/// The entry of the code section at `pos`: its size, the groups of locals, which may
/// not declare more than 2^32 locals together, and the body, which has to end where the
/// size says.
pub open spec fn code_at(bytes: Seq<u8>, pos: int) -> Parse<CodeView> {
    match u32_at(bytes, pos) {
        Err(f) => Err(f),
        Ok((size, start)) => match items_at::<(u32, ValueType)>(bytes, start) {
            Err(f) => Err(f),
            Ok((locals, second)) => {
                if total_locals(locals) > 0x1_0000_0000 {
                    fault(second, TOO_MANY_LOCALS)
                } else {
                    match expression_at(bytes, second) {
                        Err(f) => Err(f),
                        Ok((body, end)) => {
                            if end == start + size {
                                Ok((CodeView { locals, body }, end))
                            } else {
                                fault(end, INVALID_CODE_SIZE)
                            }
                        },
                    }
                }
            },
        },
    }
}

/// The start section at `pos`, if it is there: the index of a function.
pub open spec fn start_section_at(bytes: Seq<u8>, pos: int) -> Parse<Option<StartFunction>> {
    match section_head_at(bytes, pos, SECTION_ID_START) {
        Err(f) => Err(f),
        Ok((None, _)) => Ok((None, pos)),
        Ok((Some(limit), start)) => match framed(u32_at(bytes, start), limit) {
            Err(f) => Err(f),
            Ok((function, end)) => Ok((Some(StartFunction { function }), end)),
        },
    }
}

/// Reads an import.
pub fn decode_import(decoder: &mut Decoder) -> (r: DecoderResult<Import>)
    ensures
        reads(
            *old(decoder),
            *final(decoder),
            viewed(r),
            import_at(old(decoder).bytes@, old(decoder).offset as int),
        ),
{
    let module = decode_name(decoder)?;
    let name = decode_name(decoder)?;
    let descriptor = match decoder.pick_byte() {
        None => {
            return Err(decoder.produce_error(UNEXPECTED_END));
        },
        Some(tag) => {
            if tag > 0x03 {
                return Err(decoder.produce_error(INVALID_IMPORT_DESCRIPTOR));
            }
            decoder.step();
            if tag == 0x00 {
                ImportDescriptor::Function(decode_u32(decoder)?)
            } else if tag == 0x01 {
                ImportDescriptor::Table(decode_table_type(decoder)?)
            } else if tag == 0x02 {
                ImportDescriptor::Memory(decode_memory_type(decoder)?)
            } else {
                ImportDescriptor::Global(decode_global_type(decoder)?)
            }
        },
    };
    Ok(Import { module, name, descriptor })
}

/// Reads an export.
pub fn decode_export(decoder: &mut Decoder) -> (r: DecoderResult<Export>)
    ensures
        reads(
            *old(decoder),
            *final(decoder),
            viewed(r),
            export_at(old(decoder).bytes@, old(decoder).offset as int),
        ),
{
    let name = decode_name(decoder)?;
    match decoder.pick_byte() {
        None => Err(decoder.produce_error(UNEXPECTED_END)),
        Some(tag) => {
            if tag > 0x03 {
                return Err(decoder.produce_error(INVALID_EXPORT_DESCRIPTOR));
            }
            decoder.step();
            let index = decode_u32(decoder)?;
            let descriptor = if tag == 0x00 {
                Index::Function(index)
            } else if tag == 0x01 {
                Index::Table(index)
            } else if tag == 0x02 {
                Index::Memory(index)
            } else {
                Index::Global(index)
            };
            Ok(Export { name, descriptor })
        },
    }
}

/// Reads a global.
pub fn decode_global(decoder: &mut Decoder) -> (r: DecoderResult<Global>)
    ensures
        reads(
            *old(decoder),
            *final(decoder),
            viewed(r),
            global_at(old(decoder).bytes@, old(decoder).offset as int),
        ),
{
    let global_type = decode_global_type(decoder)?;
    let init = decode_expression(decoder)?;
    Ok(Global { global_type, init })
}

/// Reads an element segment.
pub fn decode_element(decoder: &mut Decoder) -> (r: DecoderResult<Element>)
    ensures
        reads(
            *old(decoder),
            *final(decoder),
            viewed(r),
            element_at(old(decoder).bytes@, old(decoder).offset as int),
        ),
{
    let table = decode_u32(decoder)?;
    let offset = decode_expression(decoder)?;
    let init = decode_vector::<u32>(decoder)?;
    proof {
        assert(views(init@) =~= init@);
    }
    Ok(Element { table, offset, init })
}

/// Reads a data segment.
pub fn decode_data(decoder: &mut Decoder) -> (r: DecoderResult<Data>)
    ensures
        reads(
            *old(decoder),
            *final(decoder),
            viewed(r),
            data_at(old(decoder).bytes@, old(decoder).offset as int),
        ),
{
    let data = decode_u32(decoder)?;
    let offset = decode_expression(decoder)?;
    let init = decode_vector::<u8>(decoder)?;
    proof {
        assert(views(init@) =~= init@);
    }
    Ok(Data { data, offset, init })
}

/// Adds up the locals that the groups declare.
pub fn count_locals(groups: &Vec<(u32, ValueType)>) -> (total: u128)
    ensures
        total == total_locals(groups@),
{
    let mut total: u128 = 0;
    let mut i: usize = 0;
    while i < groups.len()
        invariant
            i <= groups.len(),
            total == total_locals(groups@.take(i as int)),
            total <= i * 0xFFFF_FFFF,
        decreases groups.len() - i,
    {
        proof {
            assert(groups@.take(i + 1).drop_last() =~= groups@.take(i as int));
        }
        total = total + groups[i].0 as u128;
        i = i + 1;
    }
    proof {
        assert(groups@.take(i as int) =~= groups@);
    }
    total
}

/// Reads an entry of the code section.
pub fn decode_code(decoder: &mut Decoder) -> (r: DecoderResult<Code>)
    ensures
        reads(
            *old(decoder),
            *final(decoder),
            viewed(r),
            code_at(old(decoder).bytes@, old(decoder).offset as int),
        ),
{
    let size = decode_u32(decoder)?;
    let start = decoder.offset;
    let locals = decode_vector::<(u32, ValueType)>(decoder)?;
    proof {
        assert(views(locals@) =~= locals@);
    }
    if count_locals(&locals) > 0x1_0000_0000 {
        return Err(decoder.produce_error(TOO_MANY_LOCALS));
    }
    let body = decode_expression(decoder)?;
    if !decoder.is_behind(start, size) {
        return Err(decoder.produce_error(INVALID_CODE_SIZE));
    }
    Ok(Code { locals, body })
}

/// Reads the start section, if it comes next.
pub fn decode_start_section(decoder: &mut Decoder) -> (r: DecoderResult<Option<StartFunction>>)
    ensures
        reads(
            *old(decoder),
            *final(decoder),
            r,
            start_section_at(old(decoder).bytes@, old(decoder).offset as int),
        ),
{
    match decode_section(decoder, SECTION_ID_START)? {
        None => Ok(None),
        Some((start, size)) => {
            let function = decode_u32(decoder)?;
            end_section(decoder, start, size)?;
            Ok(Some(StartFunction { function }))
        },
    }
}

impl Item for Import {
    open spec fn at(bytes: Seq<u8>, pos: int) -> Parse<ImportView> {
        import_at(bytes, pos)
    }

    fn decode(decoder: &mut Decoder) -> (r: DecoderResult<Import>) {
        decode_import(decoder)
    }
}

impl Item for Export {
    open spec fn at(bytes: Seq<u8>, pos: int) -> Parse<ExportView> {
        export_at(bytes, pos)
    }

    fn decode(decoder: &mut Decoder) -> (r: DecoderResult<Export>) {
        decode_export(decoder)
    }
}

impl Item for Table {
    open spec fn at(bytes: Seq<u8>, pos: int) -> Parse<Table> {
        table_at(bytes, pos)
    }

    fn decode(decoder: &mut Decoder) -> (r: DecoderResult<Table>) {
        let table_type = decode_table_type(decoder)?;
        Ok(Table { table_type })
    }
}

impl Item for Memory {
    open spec fn at(bytes: Seq<u8>, pos: int) -> Parse<Memory> {
        memory_at(bytes, pos)
    }

    fn decode(decoder: &mut Decoder) -> (r: DecoderResult<Memory>) {
        let memory_type = decode_memory_type(decoder)?;
        Ok(Memory { memory_type })
    }
}

impl Item for Global {
    open spec fn at(bytes: Seq<u8>, pos: int) -> Parse<GlobalView> {
        global_at(bytes, pos)
    }

    fn decode(decoder: &mut Decoder) -> (r: DecoderResult<Global>) {
        decode_global(decoder)
    }
}

impl Item for Element {
    open spec fn at(bytes: Seq<u8>, pos: int) -> Parse<ElementView> {
        element_at(bytes, pos)
    }

    fn decode(decoder: &mut Decoder) -> (r: DecoderResult<Element>) {
        decode_element(decoder)
    }
}

impl Item for Data {
    open spec fn at(bytes: Seq<u8>, pos: int) -> Parse<DataView> {
        data_at(bytes, pos)
    }

    fn decode(decoder: &mut Decoder) -> (r: DecoderResult<Data>) {
        decode_data(decoder)
    }
}

impl Item for (u32, ValueType) {
    open spec fn at(bytes: Seq<u8>, pos: int) -> Parse<(u32, ValueType)> {
        local_group_at(bytes, pos)
    }

    fn decode(decoder: &mut Decoder) -> (r: DecoderResult<(u32, ValueType)>) {
        let count = decode_u32(decoder)?;
        let value_type = decode_value_type(decoder)?;
        Ok((count, value_type))
    }
}

impl Item for Code {
    open spec fn at(bytes: Seq<u8>, pos: int) -> Parse<CodeView> {
        code_at(bytes, pos)
    }

    fn decode(decoder: &mut Decoder) -> (r: DecoderResult<Code>) {
        decode_code(decoder)
    }
}

/// Reads the type section, if it comes next.
pub fn decode_function_type_section(decoder: &mut Decoder) -> (r: DecoderResult<
    Vec<FunctionType>,
>)
    ensures
        reads(
            *old(decoder),
            *final(decoder),
            viewed_items(r),
            item_section_at::<FunctionType>(
                old(decoder).bytes@,
                old(decoder).offset as int,
                SECTION_ID_TYPE,
            ),
        ),
{
    decode_vector_section::<FunctionType>(decoder, SECTION_ID_TYPE)
}

/// Reads the import section, if it comes next.
pub fn decode_import_section(decoder: &mut Decoder) -> (r: DecoderResult<Vec<Import>>)
    ensures
        reads(
            *old(decoder),
            *final(decoder),
            viewed_items(r),
            item_section_at::<Import>(
                old(decoder).bytes@,
                old(decoder).offset as int,
                SECTION_ID_IMPORT,
            ),
        ),
{
    decode_vector_section::<Import>(decoder, SECTION_ID_IMPORT)
}

/// Reads the function section, if it comes next: the type index of each function.
pub fn decode_function_section(decoder: &mut Decoder) -> (r: DecoderResult<Vec<u32>>)
    ensures
        reads(
            *old(decoder),
            *final(decoder),
            viewed_items(r),
            item_section_at::<u32>(
                old(decoder).bytes@,
                old(decoder).offset as int,
                SECTION_ID_FUNCTION,
            ),
        ),
{
    decode_vector_section::<u32>(decoder, SECTION_ID_FUNCTION)
}

/// Reads the table section, if it comes next.
pub fn decode_table_section(decoder: &mut Decoder) -> (r: DecoderResult<Vec<Table>>)
    ensures
        reads(
            *old(decoder),
            *final(decoder),
            viewed_items(r),
            item_section_at::<Table>(
                old(decoder).bytes@,
                old(decoder).offset as int,
                SECTION_ID_TABLE,
            ),
        ),
{
    decode_vector_section::<Table>(decoder, SECTION_ID_TABLE)
}

/// Reads the memory section, if it comes next.
pub fn decode_memory_section(decoder: &mut Decoder) -> (r: DecoderResult<Vec<Memory>>)
    ensures
        reads(
            *old(decoder),
            *final(decoder),
            viewed_items(r),
            item_section_at::<Memory>(
                old(decoder).bytes@,
                old(decoder).offset as int,
                SECTION_ID_MEMORY,
            ),
        ),
{
    decode_vector_section::<Memory>(decoder, SECTION_ID_MEMORY)
}

/// Reads the global section, if it comes next.
pub fn decode_global_section(decoder: &mut Decoder) -> (r: DecoderResult<Vec<Global>>)
    ensures
        reads(
            *old(decoder),
            *final(decoder),
            viewed_items(r),
            item_section_at::<Global>(
                old(decoder).bytes@,
                old(decoder).offset as int,
                SECTION_ID_GLOBAL,
            ),
        ),
{
    decode_vector_section::<Global>(decoder, SECTION_ID_GLOBAL)
}

/// Reads the export section, if it comes next.
pub fn decode_export_section(decoder: &mut Decoder) -> (r: DecoderResult<Vec<Export>>)
    ensures
        reads(
            *old(decoder),
            *final(decoder),
            viewed_items(r),
            item_section_at::<Export>(
                old(decoder).bytes@,
                old(decoder).offset as int,
                SECTION_ID_EXPORT,
            ),
        ),
{
    decode_vector_section::<Export>(decoder, SECTION_ID_EXPORT)
}

/// Reads the element section, if it comes next.
pub fn decode_element_section(decoder: &mut Decoder) -> (r: DecoderResult<Vec<Element>>)
    ensures
        reads(
            *old(decoder),
            *final(decoder),
            viewed_items(r),
            item_section_at::<Element>(
                old(decoder).bytes@,
                old(decoder).offset as int,
                SECTION_ID_ELEMENT,
            ),
        ),
{
    decode_vector_section::<Element>(decoder, SECTION_ID_ELEMENT)
}

/// Reads the code section, if it comes next.
pub fn decode_code_section(decoder: &mut Decoder) -> (r: DecoderResult<Vec<Code>>)
    ensures
        reads(
            *old(decoder),
            *final(decoder),
            viewed_items(r),
            item_section_at::<Code>(
                old(decoder).bytes@,
                old(decoder).offset as int,
                SECTION_ID_CODE,
            ),
        ),
{
    decode_vector_section::<Code>(decoder, SECTION_ID_CODE)
}

/// Reads the data section, if it comes next.
pub fn decode_data_section(decoder: &mut Decoder) -> (r: DecoderResult<Vec<Data>>)
    ensures
        reads(
            *old(decoder),
            *final(decoder),
            viewed_items(r),
            item_section_at::<Data>(
                old(decoder).bytes@,
                old(decoder).offset as int,
                SECTION_ID_DATA,
            ),
        ),
{
    decode_vector_section::<Data>(decoder, SECTION_ID_DATA)
}

/// The byte `expected` at `pos`; another byte there is a fault with `message`.
pub open spec fn expected_at(bytes: Seq<u8>, pos: int, expected: u8, message: &str) -> Parse<()> {
    match byte_at(bytes, pos) {
        Err(f) => Err(f),
        Ok((byte, next)) => {
            if byte == expected {
                Ok(((), next))
            } else {
                fault(pos, message)
            }
        },
    }
}

/// The byte `expected` behind what `previous` has read.
pub open spec fn then_expected(
    previous: Parse<()>,
    bytes: Seq<u8>,
    expected: u8,
    message: &str,
) -> Parse<()> {
    match previous {
        Err(f) => Err(f),
        Ok((_, pos)) => expected_at(bytes, pos, expected, message),
    }
}

/// The preamble of a module at `pos`: the magic string `\0asm`, then the version 1 in
/// four bytes.
pub open spec fn preamble_at(bytes: Seq<u8>, pos: int) -> Parse<()> {
    let magic = then_expected(
        then_expected(
            then_expected(expected_at(bytes, pos, 0x00, INVALID_MAGIC), bytes, 0x61, INVALID_MAGIC),
            bytes,
            0x73,
            INVALID_MAGIC,
        ),
        bytes,
        0x6D,
        INVALID_MAGIC,
    );
    then_expected(
        then_expected(
            then_expected(
                then_expected(magic, bytes, 0x01, INVALID_VERSION),
                bytes,
                0x00,
                INVALID_VERSION,
            ),
            bytes,
            0x00,
            INVALID_VERSION,
        ),
        bytes,
        0x00,
        INVALID_VERSION,
    )
}

/// Reads the byte `expected`; the cursor stays on any other byte.
pub fn expect_byte(decoder: &mut Decoder, expected: u8, message: &'static str) -> (r:
    DecoderResult<()>)
    ensures
        reads(
            *old(decoder),
            *final(decoder),
            r,
            expected_at(old(decoder).bytes@, old(decoder).offset as int, expected, message),
        ),
{
    match decoder.pick_byte() {
        None => Err(decoder.produce_error(UNEXPECTED_END)),
        Some(byte) => {
            if byte == expected {
                decoder.step();
                Ok(())
            } else {
                Err(decoder.produce_error(message))
            }
        },
    }
}

/// Reads the preamble of a module.
pub fn decode_preamble(decoder: &mut Decoder) -> (r: DecoderResult<()>)
    ensures
        reads(
            *old(decoder),
            *final(decoder),
            r,
            preamble_at(old(decoder).bytes@, old(decoder).offset as int),
        ),
{
    expect_byte(decoder, 0x00, INVALID_MAGIC)?;
    expect_byte(decoder, 0x61, INVALID_MAGIC)?;
    expect_byte(decoder, 0x73, INVALID_MAGIC)?;
    expect_byte(decoder, 0x6D, INVALID_MAGIC)?;
    expect_byte(decoder, 0x01, INVALID_VERSION)?;
    expect_byte(decoder, 0x00, INVALID_VERSION)?;
    expect_byte(decoder, 0x00, INVALID_VERSION)?;
    expect_byte(decoder, 0x00, INVALID_VERSION)?;
    Ok(())
}

/// What the sections of a module hold, before the function section and the code section
/// are joined.
pub struct Sections {
    pub custom_sections: Seq<(Seq<char>, Seq<u8>)>,
    pub function_types: Seq<(Seq<ValueType>, Seq<ValueType>)>,
    pub imports: Seq<ImportView>,
    pub function_indexes: Seq<u32>,
    pub tables: Seq<Table>,
    pub memories: Seq<Memory>,
    pub globals: Seq<GlobalView>,
    pub exports: Seq<ExportView>,
    pub start: Option<StartFunction>,
    pub elements: Seq<ElementView>,
    pub codes: Seq<CodeView>,
    pub data: Seq<DataView>,
}

/// No section at all.
pub open spec fn no_sections() -> Sections {
    Sections {
        custom_sections: Seq::empty(),
        function_types: Seq::empty(),
        imports: Seq::empty(),
        function_indexes: Seq::empty(),
        tables: Seq::empty(),
        memories: Seq::empty(),
        globals: Seq::empty(),
        exports: Seq::empty(),
        start: None,
        elements: Seq::empty(),
        codes: Seq::empty(),
        data: Seq::empty(),
    }
}

/// The section `id` at `pos`, if it is there, put into `sections`.
pub open spec fn known_section_at(bytes: Seq<u8>, pos: int, id: u8, sections: Sections) -> Parse<
    Sections,
> {
    if id == SECTION_ID_TYPE {
        match item_section_at::<FunctionType>(bytes, pos, id) {
            Err(f) => Err(f),
            Ok((function_types, end)) => Ok((Sections { function_types, ..sections }, end)),
        }
    } else if id == SECTION_ID_IMPORT {
        match item_section_at::<Import>(bytes, pos, id) {
            Err(f) => Err(f),
            Ok((imports, end)) => Ok((Sections { imports, ..sections }, end)),
        }
    } else if id == SECTION_ID_FUNCTION {
        match item_section_at::<u32>(bytes, pos, id) {
            Err(f) => Err(f),
            Ok((function_indexes, end)) => Ok((Sections { function_indexes, ..sections }, end)),
        }
    } else if id == SECTION_ID_TABLE {
        match item_section_at::<Table>(bytes, pos, id) {
            Err(f) => Err(f),
            Ok((tables, end)) => Ok((Sections { tables, ..sections }, end)),
        }
    } else if id == SECTION_ID_MEMORY {
        match item_section_at::<Memory>(bytes, pos, id) {
            Err(f) => Err(f),
            Ok((memories, end)) => Ok((Sections { memories, ..sections }, end)),
        }
    } else if id == SECTION_ID_GLOBAL {
        match item_section_at::<Global>(bytes, pos, id) {
            Err(f) => Err(f),
            Ok((globals, end)) => Ok((Sections { globals, ..sections }, end)),
        }
    } else if id == SECTION_ID_EXPORT {
        match item_section_at::<Export>(bytes, pos, id) {
            Err(f) => Err(f),
            Ok((exports, end)) => Ok((Sections { exports, ..sections }, end)),
        }
    } else if id == SECTION_ID_START {
        match start_section_at(bytes, pos) {
            Err(f) => Err(f),
            Ok((start, end)) => Ok((Sections { start, ..sections }, end)),
        }
    } else if id == SECTION_ID_ELEMENT {
        match item_section_at::<Element>(bytes, pos, id) {
            Err(f) => Err(f),
            Ok((elements, end)) => Ok((Sections { elements, ..sections }, end)),
        }
    } else if id == SECTION_ID_CODE {
        match item_section_at::<Code>(bytes, pos, id) {
            Err(f) => Err(f),
            Ok((codes, end)) => Ok((Sections { codes, ..sections }, end)),
        }
    } else {
        match item_section_at::<Data>(bytes, pos, id) {
            Err(f) => Err(f),
            Ok((data, end)) => Ok((Sections { data, ..sections }, end)),
        }
    }
}

/// The sections from `pos` on, from the section `id` to the data section, in the order
/// of their ids, each at most once, with custom sections before, between and behind them.
pub open spec fn sections_at(bytes: Seq<u8>, pos: int, id: u8, sections: Sections) -> Parse<
    Sections,
>
    decreases 12 - id,
{
    match custom_sections_at(bytes, pos) {
        Err(f) => Err(f),
        Ok((found, next)) => {
            let sections = Sections {
                custom_sections: sections.custom_sections + found,
                ..sections
            };
            if id > SECTION_ID_DATA {
                Ok((sections, next))
            } else {
                match known_section_at(bytes, next, id, sections) {
                    Err(f) => Err(f),
                    Ok((sections, end)) => sections_at(bytes, end, (id + 1) as u8, sections),
                }
            }
        },
    }
}

/// The functions of a module: the type index of each entry of the function section with
/// the locals and the body of the entry of the code section at the same place.
pub open spec fn joined(function_indexes: Seq<u32>, codes: Seq<CodeView>) -> Seq<FunctionView> {
    Seq::new(
        function_indexes.len(),
        |i: int|
            FunctionView {
                function_type: function_indexes[i],
                locals: codes[i].locals,
                body: codes[i].body,
            },
    )
}

/// The sections that `bytes` spell behind the preamble of a module.
pub open spec fn sections_of(bytes: Seq<u8>) -> Parse<Sections> {
    match preamble_at(bytes, 0) {
        Err(f) => Err(f),
        Ok((_, first)) => sections_at(bytes, first, SECTION_ID_TYPE, no_sections()),
    }
}

/// The module that `bytes` spell: the preamble, the sections up to the end of the input,
/// and as many entries in the function section as in the code section.
pub open spec fn module_of(bytes: Seq<u8>) -> Result<ModuleView, Fault> {
    match sections_of(bytes) {
        Err(f) => Err(f),
        Ok((sections, end)) => {
            if end != bytes.len() {
                Err(Fault { offset: end, message: UNEXPECTED_END@ })
            } else if sections.function_indexes.len() != sections.codes.len() {
                Err(Fault { offset: end, message: SIZE_MISMATCH@ })
            } else {
                Ok(
                    ModuleView {
                        custom_sections: sections.custom_sections,
                        function_types: sections.function_types,
                        functions: joined(sections.function_indexes, sections.codes),
                        tables: sections.tables,
                        memories: sections.memories,
                        globals: sections.globals,
                        elements: sections.elements,
                        data: sections.data,
                        start: sections.start,
                        imports: sections.imports,
                        exports: sections.exports,
                    },
                )
            }
        },
    }
}

/// Joins the entries of the function section and of the code section.
fn join_functions(function_indexes: Vec<u32>, codes: Vec<Code>) -> (functions: Vec<Function>)
    requires
        function_indexes.len() == codes.len(),
    ensures
        views(functions@) == joined(function_indexes@, views(codes@)),
{
    let ghost all = codes@;
    let mut functions: Vec<Function> = Vec::new();
    for code in it: codes
        invariant
            it.seq() == all,
            functions.len() == it.index(),
            function_indexes.len() == all.len(),
            forall|j: int|
                0 <= j < functions.len() ==> (#[trigger] functions[j])@ == (FunctionView {
                    function_type: function_indexes[j],
                    locals: all[j].locals@,
                    body: instruction_views(all[j].body@),
                }),
    {
        let function_type = function_indexes[functions.len()];
        functions.push(Function { function_type, locals: code.locals, body: code.body });
    }
    proof {
        assert forall|j: int| 0 <= j < functions.len() implies views(functions@)[j] == joined(
            function_indexes@,
            views(all),
        )[j] by {
            assert(views(functions@)[j] == functions[j]@);
        }
        assert(views(functions@) =~= joined(function_indexes@, views(all)));
    }
    functions
}

/// Decodes a module: the model of what comes back is the module that the bytes spell,
/// and a fault of the grammar comes back as the error, with its offset and its message.
pub fn decode<'a>(bytes: &'a [u8]) -> (r: DecoderResult<Module<'a>>)
    ensures
        match module_of(bytes@) {
            Ok(module) => r matches Ok(decoded) && decoded@ == module,
            Err(fault) => r matches Err(error) && error@ == fault,
        },
{
    let mut decoder = Decoder::new(bytes);
    let mut custom_sections: Vec<CustomSection<'a>> = Vec::new();
    decode_preamble(&mut decoder)?;
    let ghost mut sections = no_sections();
    let ghost whole = sections_at(bytes@, decoder.offset as int, SECTION_ID_TYPE, sections);
    proof {
        assert(views(custom_sections@) =~= sections.custom_sections);
    }
    decode_custom_sections(&mut decoder, &mut custom_sections)?;
    let function_types = decode_function_type_section(&mut decoder)?;
    proof {
        sections = Sections {
            custom_sections: views(custom_sections@),
            function_types: views(function_types@),
            ..sections
        };
        assert(whole == sections_at(bytes@, decoder.offset as int, 2, sections));
    }
    decode_custom_sections(&mut decoder, &mut custom_sections)?;
    let imports = decode_import_section(&mut decoder)?;
    proof {
        sections = Sections {
            custom_sections: views(custom_sections@),
            imports: views(imports@),
            ..sections
        };
        assert(whole == sections_at(bytes@, decoder.offset as int, 3, sections));
    }
    decode_custom_sections(&mut decoder, &mut custom_sections)?;
    let function_indexes = decode_function_section(&mut decoder)?;
    proof {
        sections = Sections {
            custom_sections: views(custom_sections@),
            function_indexes: views(function_indexes@),
            ..sections
        };
        assert(whole == sections_at(bytes@, decoder.offset as int, 4, sections));
    }
    decode_custom_sections(&mut decoder, &mut custom_sections)?;
    let tables = decode_table_section(&mut decoder)?;
    proof {
        sections = Sections {
            custom_sections: views(custom_sections@),
            tables: views(tables@),
            ..sections
        };
        assert(whole == sections_at(bytes@, decoder.offset as int, 5, sections));
    }
    decode_custom_sections(&mut decoder, &mut custom_sections)?;
    let memories = decode_memory_section(&mut decoder)?;
    proof {
        sections = Sections {
            custom_sections: views(custom_sections@),
            memories: views(memories@),
            ..sections
        };
        assert(whole == sections_at(bytes@, decoder.offset as int, 6, sections));
    }
    decode_custom_sections(&mut decoder, &mut custom_sections)?;
    let globals = decode_global_section(&mut decoder)?;
    proof {
        sections = Sections {
            custom_sections: views(custom_sections@),
            globals: views(globals@),
            ..sections
        };
        assert(whole == sections_at(bytes@, decoder.offset as int, 7, sections));
    }
    decode_custom_sections(&mut decoder, &mut custom_sections)?;
    let exports = decode_export_section(&mut decoder)?;
    proof {
        sections = Sections {
            custom_sections: views(custom_sections@),
            exports: views(exports@),
            ..sections
        };
        assert(whole == sections_at(bytes@, decoder.offset as int, 8, sections));
    }
    decode_custom_sections(&mut decoder, &mut custom_sections)?;
    let start = decode_start_section(&mut decoder)?;
    proof {
        sections = Sections {
            custom_sections: views(custom_sections@),
            start,
            ..sections
        };
        assert(whole == sections_at(bytes@, decoder.offset as int, 9, sections));
    }
    decode_custom_sections(&mut decoder, &mut custom_sections)?;
    let elements = decode_element_section(&mut decoder)?;
    proof {
        sections = Sections {
            custom_sections: views(custom_sections@),
            elements: views(elements@),
            ..sections
        };
        assert(whole == sections_at(bytes@, decoder.offset as int, 10, sections));
    }
    decode_custom_sections(&mut decoder, &mut custom_sections)?;
    let codes = decode_code_section(&mut decoder)?;
    proof {
        sections = Sections {
            custom_sections: views(custom_sections@),
            codes: views(codes@),
            ..sections
        };
        assert(whole == sections_at(bytes@, decoder.offset as int, 11, sections));
    }
    decode_custom_sections(&mut decoder, &mut custom_sections)?;
    let data = decode_data_section(&mut decoder)?;
    proof {
        sections = Sections {
            custom_sections: views(custom_sections@),
            data: views(data@),
            ..sections
        };
        assert(whole == sections_at(bytes@, decoder.offset as int, 12, sections));
    }
    decode_custom_sections(&mut decoder, &mut custom_sections)?;
    proof {
        sections = Sections { custom_sections: views(custom_sections@), ..sections };
        assert(whole == Ok::<(Sections, int), Fault>((sections, decoder.offset as int)));
    }
    if decoder.offset != decoder.bytes.len() {
        return Err(decoder.produce_error(UNEXPECTED_END));
    }
    if function_indexes.len() != codes.len() {
        return Err(decoder.produce_error(SIZE_MISMATCH));
    }
    proof {
        assert(views(function_indexes@) =~= function_indexes@);
    }
    let functions = join_functions(function_indexes, codes);
    Ok(
        Module {
            custom_sections,
            function_types,
            functions,
            tables,
            memories,
            globals,
            elements,
            data,
            start,
            imports,
            exports,
        },
    )
}

} // verus!
