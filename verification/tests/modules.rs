use weaselm::decoder::modules::{
    decode, decode_code, decode_custom_sections, decode_data, decode_element, decode_export,
    decode_global, decode_import, decode_section, decode_start_section, decode_table_section,
    end_section, Code,
};
use weaselm::decoder::{Decoder, DecoderError};
use weaselm::types::{
    Data, Element, ElementType, Export, Function, Global, GlobalType, GlobalTypeMutability,
    Import, ImportDescriptor, Index, Instruction, Limits, Memory, MemoryType, StartFunction,
    Table, TableType, ValueType,
};

const PREAMBLE: [u8; 8] = [0x00, 0x61, 0x73, 0x6D, 0x01, 0x00, 0x00, 0x00];

fn error(offset: usize, message: &str) -> DecoderError {
    DecoderError { offset, message: String::from(message) }
}

fn module_with(sections: &[&[u8]]) -> Vec<u8> {
    let mut bytes = PREAMBLE.to_vec();
    for section in sections {
        bytes.extend_from_slice(section);
    }
    bytes
}

#[test]
fn minimal_module_has_no_entries() {
    let module = decode(&PREAMBLE).unwrap();
    assert!(module.custom_sections.is_empty());
    assert!(module.function_types.is_empty());
    assert!(module.functions.is_empty());
    assert!(module.tables.is_empty());
    assert!(module.memories.is_empty());
    assert!(module.globals.is_empty());
    assert!(module.elements.is_empty());
    assert!(module.data.is_empty());
    assert!(module.start.is_none());
    assert!(module.imports.is_empty());
    assert!(module.exports.is_empty());
}

#[test]
fn bad_magic_is_reported_at_the_byte_that_differs() {
    let bytes = [0x00, 0x61, 0x73, 0x6E, 0x01, 0x00, 0x00, 0x00];
    assert_eq!(decode(&bytes), Err(error(3, "Invalid magic string")));
    let bytes = [0x01, 0x61, 0x73, 0x6D, 0x01, 0x00, 0x00, 0x00];
    assert_eq!(decode(&bytes), Err(error(0, "Invalid magic string")));
}

#[test]
fn bad_version_is_reported_at_the_byte_that_differs() {
    let bytes = [0x00, 0x61, 0x73, 0x6D, 0x02, 0x00, 0x00, 0x00];
    assert_eq!(decode(&bytes), Err(error(4, "Invalid version number")));
    let bytes = [0x00, 0x61, 0x73, 0x6D, 0x01, 0x00, 0x00, 0x01];
    assert_eq!(decode(&bytes), Err(error(7, "Invalid version number")));
}

#[test]
fn preamble_cut_short() {
    assert_eq!(decode(&[]), Err(error(0, "Unexpected end of file")));
    assert_eq!(decode(&[0x00, 0x61, 0x73]), Err(error(3, "Unexpected end of file")));
    assert_eq!(decode(&[0x00, 0x61, 0x73, 0x6D, 0x01]), Err(error(5, "Unexpected end of file")));
}

#[test]
fn trailing_byte_is_reported_at_its_offset() {
    let bytes = module_with(&[&[0xFF]]);
    assert_eq!(decode(&bytes), Err(error(8, "Unexpected end of file")));
}

#[test]
fn one_function() {
    let bytes = module_with(&[
        &[0x01, 0x04, 0x01, 0x60, 0x00, 0x00],
        &[0x03, 0x02, 0x01, 0x00],
        &[0x0A, 0x04, 0x01, 0x02, 0x00, 0x0B],
    ]);
    let module = decode(&bytes).unwrap();
    assert_eq!(module.function_types, vec![(vec![], vec![])]);
    assert_eq!(module.functions, vec![Function { function_type: 0, locals: vec![], body: vec![] }]);
    assert!(module.custom_sections.is_empty());
}

#[test]
fn functions_join_types_with_bodies_in_order() {
    let bytes = module_with(&[
        &[0x01, 0x09, 0x02, 0x60, 0x00, 0x00, 0x60, 0x01, 0x7F, 0x01, 0x7F],
        &[0x03, 0x04, 0x03, 0x01, 0x00, 0x01],
        &[
            0x0A, 0x12, 0x03, // three bodies
            0x04, 0x00, 0x20, 0x00, 0x0B, // local.get 0
            0x02, 0x00, 0x0B, // nothing
            0x08, 0x02, 0x02, 0x7F, 0x01, 0x7E, 0x41, 0x07, 0x0B, // two groups of locals
        ],
    ]);
    let module = decode(&bytes).unwrap();
    assert_eq!(
        module.functions,
        vec![
            Function { function_type: 1, locals: vec![], body: vec![Instruction::LocalGet(0)] },
            Function { function_type: 0, locals: vec![], body: vec![] },
            Function {
                function_type: 1,
                locals: vec![(2, ValueType::I32), (1, ValueType::I64)],
                body: vec![Instruction::I32Const(7)]
            },
        ]
    );
    assert_eq!(module.functions.len(), 3);
}

#[test]
fn function_and_code_counts_have_to_match() {
    let bytes = module_with(&[&[0x01, 0x04, 0x01, 0x60, 0x00, 0x00], &[0x03, 0x02, 0x01, 0x00]]);
    assert_eq!(decode(&bytes), Err(error(18, "Function indexes and codes size mismatch")));
    let bytes = module_with(&[&[0x0A, 0x04, 0x01, 0x02, 0x00, 0x0B]]);
    assert_eq!(decode(&bytes), Err(error(14, "Function indexes and codes size mismatch")));
}

#[test]
fn section_size_has_to_fit_its_contents() {
    let bytes = module_with(&[&[0x01, 0x05, 0x01, 0x60, 0x00, 0x00]]);
    assert_eq!(decode(&bytes), Err(error(14, "Invalid section size")));
    let bytes = module_with(&[&[0x01, 0x03, 0x01, 0x60, 0x00, 0x00]]);
    assert_eq!(decode(&bytes), Err(error(14, "Invalid section size")));
}

#[test]
fn sections_out_of_order_are_left_unread() {
    let bytes = module_with(&[&[0x03, 0x01, 0x00], &[0x01, 0x01, 0x00]]);
    assert_eq!(decode(&bytes), Err(error(11, "Unexpected end of file")));
}

#[test]
fn a_section_may_not_come_twice() {
    let bytes = module_with(&[&[0x01, 0x01, 0x00], &[0x01, 0x01, 0x00]]);
    assert_eq!(decode(&bytes), Err(error(11, "Unexpected end of file")));
}

#[test]
fn custom_sections_keep_their_bytes_and_their_order() {
    let bytes = module_with(&[
        &[0x00, 0x05, 0x01, b'a', 0xDE, 0xAD, 0xBE],
        &[0x01, 0x01, 0x00],
        &[0x00, 0x02, 0x01, b'b'],
        &[0x00, 0x04, 0x02, 0xC3, 0xA9, 0x00],
        &[0x0B, 0x01, 0x00],
        &[0x00, 0x03, 0x00, 0x0B, 0x0B],
    ]);
    let module = decode(&bytes).unwrap();
    assert_eq!(module.custom_sections.len(), 4);
    assert_eq!(module.custom_sections[0], (String::from("a"), &[0xDEu8, 0xAD, 0xBE][..]));
    assert_eq!(module.custom_sections[1], (String::from("b"), &[][..]));
    assert_eq!(module.custom_sections[2], (String::from("é"), &[0x00u8][..]));
    assert_eq!(module.custom_sections[3], (String::new(), &[0x0Bu8, 0x0B][..]));
    assert_eq!(module.custom_sections[0].1, &bytes[12..15]);
    assert!(module.function_types.is_empty());
}

#[test]
fn custom_section_payload_is_a_slice_of_the_input() {
    let bytes = module_with(&[&[0x00, 0x04, 0x01, b'n', 0x01, 0x02]]);
    let module = decode(&bytes).unwrap();
    let payload = module.custom_sections[0].1;
    let start = bytes.as_ptr() as usize;
    let at = payload.as_ptr() as usize;
    assert_eq!(at - start, 12);
    assert_eq!(payload, &bytes[12..14]);
}

#[test]
fn custom_section_is_not_read_as_sections() {
    let bytes = module_with(&[&[0x00, 0x04, 0x00, 0x01, 0x01, 0x00]]);
    let module = decode(&bytes).unwrap();
    assert_eq!(module.custom_sections[0], (String::new(), &[0x01u8, 0x01, 0x00][..]));
}

#[test]
fn custom_section_size_errors() {
    let bytes = module_with(&[&[0x00, 0x01, 0x01, b'a']]);
    assert_eq!(decode(&bytes), Err(error(12, "Invalid section size")));
    let bytes = module_with(&[&[0x00, 0x09, 0x01, b'a']]);
    assert_eq!(decode(&bytes), Err(error(12, "Invalid section size")));
    let bytes = module_with(&[&[0x00, 0x02, 0x01, 0xFF]]);
    assert_eq!(decode(&bytes), Err(error(12, "Invalid utf-8 encoding")));
    let bytes = module_with(&[&[0x00]]);
    assert_eq!(decode(&bytes), Err(error(9, "Unexpected end of file")));
}

#[test]
fn custom_sections_are_put_behind_those_already_there() {
    let bytes = [0x00u8, 0x02, 0x01, b'x', 0x00, 0x03, 0x01, b'y', 0x07, 0x01];
    let mut decoder = Decoder::new(&bytes);
    let earlier = [9u8];
    let mut sections = vec![(String::from("w"), &earlier[..])];
    assert_eq!(decode_custom_sections(&mut decoder, &mut sections), Ok(()));
    assert_eq!(decoder.offset, 9);
    assert_eq!(
        sections,
        vec![
            (String::from("w"), &[9u8][..]),
            (String::from("x"), &[][..]),
            (String::from("y"), &[7u8][..]),
        ]
    );
}

#[test]
fn custom_sections_are_left_alone_where_one_is_at_fault() {
    let bytes = [0x00u8, 0x02, 0x01, b'x', 0x00, 0x03, 0x01, 0xFF, 0x07];
    let mut decoder = Decoder::new(&bytes);
    let earlier = [9u8];
    let mut sections = vec![(String::from("w"), &earlier[..])];
    assert_eq!(
        decode_custom_sections(&mut decoder, &mut sections),
        Err(error(8, "Invalid utf-8 encoding"))
    );
    assert_eq!(decoder.offset, 8);
    assert_eq!(sections, vec![(String::from("w"), &[9u8][..])]);
}

#[test]
fn section_head() {
    let bytes = [0x04u8, 0x85, 0x01, 0x00];
    let mut decoder = Decoder::new(&bytes);
    assert_eq!(decode_section(&mut decoder, 5), Ok(None));
    assert_eq!(decoder.offset, 0);
    assert_eq!(decode_section(&mut decoder, 4), Ok(Some((3, 133))));
    assert_eq!(decoder.offset, 3);
    assert_eq!(end_section(&decoder, 3, 0), Ok(()));
    assert_eq!(end_section(&decoder, 1, 2), Ok(()));
    assert_eq!(end_section(&decoder, 3, 1), Err(error(3, "Invalid section size")));
    assert_eq!(end_section(&decoder, 4, 0), Err(error(3, "Invalid section size")));
}

#[test]
fn import_of_each_kind() {
    let bytes = [0x01u8, b'm', 0x01, b'f', 0x00, 0x02];
    let mut decoder = Decoder::new(&bytes);
    assert_eq!(
        decode_import(&mut decoder),
        Ok(Import {
            module: String::from("m"),
            name: String::from("f"),
            descriptor: ImportDescriptor::Function(2)
        })
    );
    let bytes = [0x00u8, 0x00, 0x01, 0x70, 0x00, 0x01];
    let mut decoder = Decoder::new(&bytes);
    assert_eq!(
        decode_import(&mut decoder).unwrap().descriptor,
        ImportDescriptor::Table(TableType {
            limits: Limits { min: 1, max: None },
            element_type: ElementType::FuncRef
        })
    );
    let bytes = [0x00u8, 0x00, 0x02, 0x01, 0x01, 0x02];
    let mut decoder = Decoder::new(&bytes);
    assert_eq!(
        decode_import(&mut decoder).unwrap().descriptor,
        ImportDescriptor::Memory(MemoryType { limits: Limits { min: 1, max: Some(2) } })
    );
    let bytes = [0x00u8, 0x00, 0x03, 0x7E, 0x01];
    let mut decoder = Decoder::new(&bytes);
    assert_eq!(
        decode_import(&mut decoder).unwrap().descriptor,
        ImportDescriptor::Global(GlobalType {
            value_type: ValueType::I64,
            mutability: GlobalTypeMutability::Var
        })
    );
}

#[test]
fn import_invalid_descriptor() {
    let bytes = [0x00u8, 0x00, 0x04, 0x00];
    let mut decoder = Decoder::new(&bytes);
    assert_eq!(decode_import(&mut decoder), Err(error(2, "Invalid import descriptor")));
    assert_eq!(decoder.offset, 2);
}

#[test]
fn export_of_each_kind() {
    let kinds = [
        (0x00u8, Index::Function(5)),
        (0x01, Index::Table(5)),
        (0x02, Index::Memory(5)),
        (0x03, Index::Global(5)),
    ];
    for (tag, descriptor) in kinds {
        let bytes = [0x02u8, b'o', b'k', tag, 0x05];
        let mut decoder = Decoder::new(&bytes);
        assert_eq!(
            decode_export(&mut decoder),
            Ok(Export { name: String::from("ok"), descriptor })
        );
        assert_eq!(decoder.offset, 5);
    }
}

#[test]
fn export_invalid_descriptor() {
    let bytes = [0x00u8, 0x04, 0x00];
    let mut decoder = Decoder::new(&bytes);
    assert_eq!(decode_export(&mut decoder), Err(error(1, "Invalid export descriptor")));
}

#[test]
fn global_with_initializer() {
    let bytes = [0x7Fu8, 0x01, 0x41, 0x2A, 0x0B];
    let mut decoder = Decoder::new(&bytes);
    assert_eq!(
        decode_global(&mut decoder),
        Ok(Global {
            global_type: GlobalType {
                value_type: ValueType::I32,
                mutability: GlobalTypeMutability::Var
            },
            init: vec![Instruction::I32Const(42)]
        })
    );
}

#[test]
fn element_segment() {
    let bytes = [0x00u8, 0x41, 0x01, 0x0B, 0x03, 0x00, 0x02, 0x01];
    let mut decoder = Decoder::new(&bytes);
    assert_eq!(
        decode_element(&mut decoder),
        Ok(Element { table: 0, offset: vec![Instruction::I32Const(1)], init: vec![0, 2, 1] })
    );
    assert_eq!(decoder.offset, 8);
}

#[test]
fn data_segment() {
    let bytes = [0x00u8, 0x41, 0x08, 0x0B, 0x03, 0xAA, 0x0B, 0xCC];
    let mut decoder = Decoder::new(&bytes);
    assert_eq!(
        decode_data(&mut decoder),
        Ok(Data { data: 0, offset: vec![Instruction::I32Const(8)], init: vec![0xAA, 0x0B, 0xCC] })
    );
    let bytes = [0x00u8, 0x41, 0x08, 0x0B, 0x03, 0xAA];
    let mut decoder = Decoder::new(&bytes);
    assert_eq!(decode_data(&mut decoder), Err(error(6, "Unexpected end of file")));
}

#[test]
fn code_entry() {
    let bytes = [0x06u8, 0x01, 0x03, 0x7D, 0x20, 0x00, 0x0B];
    let mut decoder = Decoder::new(&bytes);
    assert_eq!(
        decode_code(&mut decoder),
        Ok(Code { locals: vec![(3, ValueType::F32)], body: vec![Instruction::LocalGet(0)] })
    );
    assert_eq!(decoder.offset, 7);
}

#[test]
fn code_size_has_to_fit() {
    let bytes = [0x05u8, 0x00, 0x01, 0x0B];
    let mut decoder = Decoder::new(&bytes);
    assert_eq!(decode_code(&mut decoder), Err(error(4, "Invalid code size")));
    let bytes = [0x02u8, 0x00, 0x01, 0x0B];
    let mut decoder = Decoder::new(&bytes);
    assert_eq!(decode_code(&mut decoder), Err(error(4, "Invalid code size")));
}

#[test]
fn locals_up_to_two_to_the_32_are_taken() {
    let bytes = [
        0x0Fu8, 0x02, 0xFF, 0xFF, 0xFF, 0xFF, 0x0F, 0x7F, 0x01, 0x7E, 0x0B,
    ];
    let mut decoder = Decoder::new(&bytes);
    let bytes_len = bytes.len();
    let result = decode_code(&mut decoder);
    assert_eq!(result, Err(error(bytes_len, "Invalid code size")));
    let bytes = [0x0Au8, 0x02, 0xFF, 0xFF, 0xFF, 0xFF, 0x0F, 0x7F, 0x01, 0x7E, 0x0B];
    let mut decoder = Decoder::new(&bytes);
    assert_eq!(
        decode_code(&mut decoder),
        Ok(Code { locals: vec![(u32::MAX, ValueType::I32), (1, ValueType::I64)], body: vec![] })
    );
}

#[test]
fn too_many_locals() {
    let bytes = [0x0Au8, 0x02, 0xFF, 0xFF, 0xFF, 0xFF, 0x0F, 0x7F, 0x02, 0x7E, 0x0B];
    let mut decoder = Decoder::new(&bytes);
    assert_eq!(decode_code(&mut decoder), Err(error(10, "Too many locals")));
}

#[test]
fn start_section_is_framed_like_the_others() {
    let bytes = [0x08u8, 0x01, 0x03];
    let mut decoder = Decoder::new(&bytes);
    assert_eq!(decode_start_section(&mut decoder), Ok(Some(StartFunction { function: 3 })));
    let bytes = [0x08u8, 0x02, 0x83, 0x00];
    let mut decoder = Decoder::new(&bytes);
    assert_eq!(decode_start_section(&mut decoder), Ok(Some(StartFunction { function: 3 })));
    let bytes = [0x08u8, 0x02, 0x03];
    let mut decoder = Decoder::new(&bytes);
    assert_eq!(decode_start_section(&mut decoder), Err(error(3, "Invalid section size")));
    let bytes = [0x09u8, 0x01, 0x03];
    let mut decoder = Decoder::new(&bytes);
    assert_eq!(decode_start_section(&mut decoder), Ok(None));
    assert_eq!(decoder.offset, 0);
}

#[test]
fn table_section() {
    let bytes = [0x04u8, 0x07, 0x02, 0x70, 0x00, 0x01, 0x70, 0x00, 0x02];
    let mut decoder = Decoder::new(&bytes);
    let table = |min| Table {
        table_type: TableType {
            limits: Limits { min, max: None },
            element_type: ElementType::FuncRef,
        },
    };
    assert_eq!(decode_table_section(&mut decoder), Ok(vec![table(1), table(2)]));
    let bytes = [0x05u8, 0x00];
    let mut decoder = Decoder::new(&bytes);
    assert_eq!(decode_table_section(&mut decoder), Ok(vec![]));
    assert_eq!(decoder.offset, 0);
}

#[test]
fn all_sections_together() {
    let bytes = module_with(&[
        &[0x01, 0x04, 0x01, 0x60, 0x00, 0x00],
        &[0x02, 0x08, 0x01, 0x01, b'm', 0x01, b'g', 0x03, 0x7F, 0x00],
        &[0x03, 0x02, 0x01, 0x00],
        &[0x04, 0x04, 0x01, 0x70, 0x00, 0x01],
        &[0x05, 0x03, 0x01, 0x00, 0x01],
        &[0x06, 0x06, 0x01, 0x7F, 0x00, 0x23, 0x00, 0x0B],
        &[0x07, 0x05, 0x01, 0x01, b'f', 0x00, 0x00],
        &[0x08, 0x01, 0x00],
        &[0x09, 0x07, 0x01, 0x00, 0x41, 0x00, 0x0B, 0x01, 0x00],
        &[0x0A, 0x04, 0x01, 0x02, 0x00, 0x0B],
        &[0x0B, 0x07, 0x01, 0x00, 0x41, 0x00, 0x0B, 0x01, 0x2A],
    ]);
    let module = decode(&bytes).unwrap();
    assert_eq!(module.function_types.len(), 1);
    assert_eq!(module.imports.len(), 1);
    assert_eq!(module.functions.len(), 1);
    assert_eq!(module.tables.len(), 1);
    assert_eq!(
        module.memories,
        vec![Memory { memory_type: MemoryType { limits: Limits { min: 1, max: None } } }],
    );
    assert_eq!(module.globals[0].init, vec![Instruction::GlobalGet(0)]);
    assert_eq!(
        module.exports[0],
        Export { name: String::from("f"), descriptor: Index::Function(0) },
    );
    assert_eq!(module.start, Some(StartFunction { function: 0 }));
    assert_eq!(module.elements[0].init, vec![0]);
    assert_eq!(module.data[0].init, vec![0x2A]);
}

#[test]
fn decode_takes_any_bytes() {
    let mut seed: u32 = 0x1234_5678;
    for round in 0..2000 {
        let mut bytes = if round % 2 == 0 { PREAMBLE.to_vec() } else { Vec::new() };
        let len = (seed >> 24) as usize % 40;
        for _ in 0..len {
            seed = seed.wrapping_mul(1664525).wrapping_add(1013904223);
            let byte = (seed >> 16) as u8;
            bytes.push(if round % 3 == 0 { byte % 16 } else { byte });
        }
        match decode(&bytes) {
            Ok(module) => assert_eq!(module.functions.len(), module.functions.len()),
            Err(found) => assert!(found.offset <= bytes.len()),
        }
    }
}
