//! The parts of a module, and their models.
//!
//! The model of an instruction is its opcode with what follows the opcode in the binary
//! format; a nested body is a sequence of such models. The other parts with a body or a
//! vector in them have a model with sequences in place of the vectors.

use vstd::prelude::*;

verus! {

/// A value type: one of the four numeric primitives.
#[derive(Debug, Copy, Clone, PartialEq, Eq, Structural)]
pub enum ValueType {
    I32,
    I64,
    F32,
    F64,
}

/// A function type: the parameter types, then the result types.
pub type FunctionType = (Vec<ValueType>, Vec<ValueType>);

/// The size range of a table or a memory.
#[derive(Debug, Copy, Clone, PartialEq, Eq, Structural)]
pub struct Limits {
    pub min: u32,
    pub max: Option<u32>,
}

/// A memory type, with its limits counted in 64 KiB pages.
#[derive(Debug, Copy, Clone, PartialEq, Eq, Structural)]
pub struct MemoryType {
    pub limits: Limits,
}

/// The kind of reference that a table holds.
#[derive(Debug, Copy, Clone, PartialEq, Eq, Structural)]
pub enum ElementType {
    FuncRef,
}

/// A table type.
#[derive(Debug, Copy, Clone, PartialEq, Eq, Structural)]
pub struct TableType {
    pub limits: Limits,
    pub element_type: ElementType,
}

/// Whether a global can be written.
#[derive(Debug, Copy, Clone, PartialEq, Eq, Structural)]
pub enum GlobalTypeMutability {
    Const,
    Var,
}

/// A global type.
#[derive(Debug, Copy, Clone, PartialEq, Eq, Structural)]
pub struct GlobalType {
    pub value_type: ValueType,
    pub mutability: GlobalTypeMutability,
}

/// The result of a structured control instruction.
#[derive(Debug, Copy, Clone, PartialEq, Eq, Structural)]
pub enum BlockType {
    Void,
    Return(ValueType),
}

/// The immediate of a load or a store: `align` is the base-two logarithm of the alignment.
#[derive(Debug, Copy, Clone, PartialEq, Eq, Structural)]
pub struct MemoryArg {
    pub align: u32,
    pub offset: u32,
}

/// An expression: a sequence of instructions. The `end` byte that closes it in the binary
/// format is not stored.
pub type Expression = Vec<Instruction>;

/// An instruction. The two float constants carry the IEEE 754 bit pattern of their value.
#[derive(Debug, PartialEq, Eq)]
pub enum Instruction {
    // Control flow instructions
    Unreachable,
    Nop,
    Block(BlockType, Vec<Instruction>),
    Loop(BlockType, Vec<Instruction>),
    If(BlockType, Vec<Instruction>, Option<Vec<Instruction>>),
    Br(u32),
    BrIf(u32),
    BrTable(Vec<u32>, u32),
    Return,
    Call(u32),
    CallIndirect(u32),

    // Parametric instructions
    Drop,
    Select,

    // Variable instructions
    LocalGet(u32),
    LocalSet(u32),
    LocalTee(u32),
    GlobalGet(u32),
    GlobalSet(u32),

    // Memory instructions
    I32Load(MemoryArg),
    I64Load(MemoryArg),
    F32Load(MemoryArg),
    F64Load(MemoryArg),
    I32Load8S(MemoryArg),
    I32Load8U(MemoryArg),
    I32Load16S(MemoryArg),
    I32Load16U(MemoryArg),
    I64Load8S(MemoryArg),
    I64Load8U(MemoryArg),
    I64Load16S(MemoryArg),
    I64Load16U(MemoryArg),
    I64Load32S(MemoryArg),
    I64Load32U(MemoryArg),
    I32Store(MemoryArg),
    I64Store(MemoryArg),
    F32Store(MemoryArg),
    F64Store(MemoryArg),
    I32Store8(MemoryArg),
    I32Store16(MemoryArg),
    I64Store8(MemoryArg),
    I64Store16(MemoryArg),
    I64Store32(MemoryArg),
    MemorySize,
    MemoryGrow,

    // Constants instructions
    I32Const(i32),
    I64Const(i64),
    F32Const(u32),
    F64Const(u64),

    // Comparison operators
    I32Eqz,
    I32Eq,
    I32Ne,
    I32LtS,
    I32LtU,
    I32GtS,
    I32GtU,
    I32LeS,
    I32LeU,
    I32GeS,
    I32GeU,
    I64Eqz,
    I64Eq,
    I64Ne,
    I64LtS,
    I64LtU,
    I64GtS,
    I64GtU,
    I64LeS,
    I64LeU,
    I64GeS,
    I64GeU,
    F32Eq,
    F32Ne,
    F32Lt,
    F32Gt,
    F32Le,
    F32Ge,
    F64Eq,
    F64Ne,
    F64Lt,
    F64Gt,
    F64Le,
    F64Ge,

    // Numeric operators
    I32Clz,
    I32Ctz,
    I32Popcnt,
    I32Add,
    I32Sub,
    I32Mul,
    I32DivS,
    I32DivU,
    I32RemS,
    I32RemU,
    I32And,
    I32Or,
    I32Xor,
    I32Shl,
    I32ShrS,
    I32ShrU,
    I32Rotl,
    I32Rotr,
    I64Clz,
    I64Ctz,
    I64Popcnt,
    I64Add,
    I64Sub,
    I64Mul,
    I64DivS,
    I64DivU,
    I64RemS,
    I64RemU,
    I64And,
    I64Or,
    I64Xor,
    I64Shl,
    I64ShrS,
    I64ShrU,
    I64Rotl,
    I64Rotr,
    F32Abs,
    F32Neg,
    F32Ceil,
    F32Floor,
    F32Trunc,
    F32Nearest,
    F32Sqrt,
    F32Add,
    F32Sub,
    F32Mul,
    F32Div,
    F32Min,
    F32Max,
    F32CopySign,
    F64Abs,
    F64Neg,
    F64Ceil,
    F64Floor,
    F64Trunc,
    F64Nearest,
    F64Sqrt,
    F64Add,
    F64Sub,
    F64Mul,
    F64Div,
    F64Min,
    F64Max,
    F64CopySign,

    // Conversions
    I32WrapI64,
    I32TruncSF32,
    I32TruncUF32,
    I32TruncSF64,
    I32TruncUF64,
    I64ExtendSI32,
    I64ExtendUI32,
    I64TruncSF32,
    I64TruncUF32,
    I64TruncSF64,
    I64TruncUF64,
    F32ConvertSI32,
    F32ConvertUI32,
    F32ConvertSI64,
    F32ConvertUI64,
    F32DemoteF64,
    F64ConvertSI32,
    F64ConvertUI32,
    F64ConvertSI64,
    F64ConvertUI64,
    F64PromoteF32,

    // Reinterpretations
    I32ReinterpretF32,
    I64ReinterpretF64,
    F32ReinterpretI32,
    F64ReinterpretI64,
}

/// What follows the opcode byte of an instruction.
pub enum Immediate {
    /// Nothing.
    Nothing,
    /// A block type and a body, closed by `end`.
    Block(BlockType, Seq<InstructionView>),
    /// A block type, a first body, and the body behind `else` if there is one.
    If(BlockType, Seq<InstructionView>, Option<Seq<InstructionView>>),
    /// One index.
    Index(u32),
    /// The labels of a branch table and its default label.
    Table(Seq<u32>, u32),
    /// A memory argument.
    Memory(MemoryArg),
    I32(i32),
    I64(i64),
    /// The bit pattern of a 32-bit float.
    F32(u32),
    /// The bit pattern of a 64-bit float.
    F64(u64),
}

/// The mathematical model of an instruction: its opcode and its immediate.
pub struct InstructionView {
    pub opcode: u8,
    pub immediate: Immediate,
}

impl Instruction {
    /// The opcode byte of the instruction in the binary format.
    pub open spec fn opcode(&self) -> u8 {
        match self {
            Instruction::Unreachable => 0x00,
            Instruction::Nop => 0x01,
            Instruction::Block(..) => 0x02,
            Instruction::Loop(..) => 0x03,
            Instruction::If(..) => 0x04,
            Instruction::Br(_) => 0x0C,
            Instruction::BrIf(_) => 0x0D,
            Instruction::BrTable(..) => 0x0E,
            Instruction::Return => 0x0F,
            Instruction::Call(_) => 0x10,
            Instruction::CallIndirect(_) => 0x11,
            Instruction::Drop => 0x1A,
            Instruction::Select => 0x1B,
            Instruction::LocalGet(_) => 0x20,
            Instruction::LocalSet(_) => 0x21,
            Instruction::LocalTee(_) => 0x22,
            Instruction::GlobalGet(_) => 0x23,
            Instruction::GlobalSet(_) => 0x24,
            Instruction::I32Load(_) => 0x28,
            Instruction::I64Load(_) => 0x29,
            Instruction::F32Load(_) => 0x2A,
            Instruction::F64Load(_) => 0x2B,
            Instruction::I32Load8S(_) => 0x2C,
            Instruction::I32Load8U(_) => 0x2D,
            Instruction::I32Load16S(_) => 0x2E,
            Instruction::I32Load16U(_) => 0x2F,
            Instruction::I64Load8S(_) => 0x30,
            Instruction::I64Load8U(_) => 0x31,
            Instruction::I64Load16S(_) => 0x32,
            Instruction::I64Load16U(_) => 0x33,
            Instruction::I64Load32S(_) => 0x34,
            Instruction::I64Load32U(_) => 0x35,
            Instruction::I32Store(_) => 0x36,
            Instruction::I64Store(_) => 0x37,
            Instruction::F32Store(_) => 0x38,
            Instruction::F64Store(_) => 0x39,
            Instruction::I32Store8(_) => 0x3A,
            Instruction::I32Store16(_) => 0x3B,
            Instruction::I64Store8(_) => 0x3C,
            Instruction::I64Store16(_) => 0x3D,
            Instruction::I64Store32(_) => 0x3E,
            Instruction::MemorySize => 0x3F,
            Instruction::MemoryGrow => 0x40,
            Instruction::I32Const(_) => 0x41,
            Instruction::I64Const(_) => 0x42,
            Instruction::F32Const(_) => 0x43,
            Instruction::F64Const(_) => 0x44,
            Instruction::I32Eqz => 0x45,
            Instruction::I32Eq => 0x46,
            Instruction::I32Ne => 0x47,
            Instruction::I32LtS => 0x48,
            Instruction::I32LtU => 0x49,
            Instruction::I32GtS => 0x4A,
            Instruction::I32GtU => 0x4B,
            Instruction::I32LeS => 0x4C,
            Instruction::I32LeU => 0x4D,
            Instruction::I32GeS => 0x4E,
            Instruction::I32GeU => 0x4F,
            Instruction::I64Eqz => 0x50,
            Instruction::I64Eq => 0x51,
            Instruction::I64Ne => 0x52,
            Instruction::I64LtS => 0x53,
            Instruction::I64LtU => 0x54,
            Instruction::I64GtS => 0x55,
            Instruction::I64GtU => 0x56,
            Instruction::I64LeS => 0x57,
            Instruction::I64LeU => 0x58,
            Instruction::I64GeS => 0x59,
            Instruction::I64GeU => 0x5A,
            Instruction::F32Eq => 0x5B,
            Instruction::F32Ne => 0x5C,
            Instruction::F32Lt => 0x5D,
            Instruction::F32Gt => 0x5E,
            Instruction::F32Le => 0x5F,
            Instruction::F32Ge => 0x60,
            Instruction::F64Eq => 0x61,
            Instruction::F64Ne => 0x62,
            Instruction::F64Lt => 0x63,
            Instruction::F64Gt => 0x64,
            Instruction::F64Le => 0x65,
            Instruction::F64Ge => 0x66,
            Instruction::I32Clz => 0x67,
            Instruction::I32Ctz => 0x68,
            Instruction::I32Popcnt => 0x69,
            Instruction::I32Add => 0x6A,
            Instruction::I32Sub => 0x6B,
            Instruction::I32Mul => 0x6C,
            Instruction::I32DivS => 0x6D,
            Instruction::I32DivU => 0x6E,
            Instruction::I32RemS => 0x6F,
            Instruction::I32RemU => 0x70,
            Instruction::I32And => 0x71,
            Instruction::I32Or => 0x72,
            Instruction::I32Xor => 0x73,
            Instruction::I32Shl => 0x74,
            Instruction::I32ShrS => 0x75,
            Instruction::I32ShrU => 0x76,
            Instruction::I32Rotl => 0x77,
            Instruction::I32Rotr => 0x78,
            Instruction::I64Clz => 0x79,
            Instruction::I64Ctz => 0x7A,
            Instruction::I64Popcnt => 0x7B,
            Instruction::I64Add => 0x7C,
            Instruction::I64Sub => 0x7D,
            Instruction::I64Mul => 0x7E,
            Instruction::I64DivS => 0x7F,
            Instruction::I64DivU => 0x80,
            Instruction::I64RemS => 0x81,
            Instruction::I64RemU => 0x82,
            Instruction::I64And => 0x83,
            Instruction::I64Or => 0x84,
            Instruction::I64Xor => 0x85,
            Instruction::I64Shl => 0x86,
            Instruction::I64ShrS => 0x87,
            Instruction::I64ShrU => 0x88,
            Instruction::I64Rotl => 0x89,
            Instruction::I64Rotr => 0x8A,
            Instruction::F32Abs => 0x8B,
            Instruction::F32Neg => 0x8C,
            Instruction::F32Ceil => 0x8D,
            Instruction::F32Floor => 0x8E,
            Instruction::F32Trunc => 0x8F,
            Instruction::F32Nearest => 0x90,
            Instruction::F32Sqrt => 0x91,
            Instruction::F32Add => 0x92,
            Instruction::F32Sub => 0x93,
            Instruction::F32Mul => 0x94,
            Instruction::F32Div => 0x95,
            Instruction::F32Min => 0x96,
            Instruction::F32Max => 0x97,
            Instruction::F32CopySign => 0x98,
            Instruction::F64Abs => 0x99,
            Instruction::F64Neg => 0x9A,
            Instruction::F64Ceil => 0x9B,
            Instruction::F64Floor => 0x9C,
            Instruction::F64Trunc => 0x9D,
            Instruction::F64Nearest => 0x9E,
            Instruction::F64Sqrt => 0x9F,
            Instruction::F64Add => 0xA0,
            Instruction::F64Sub => 0xA1,
            Instruction::F64Mul => 0xA2,
            Instruction::F64Div => 0xA3,
            Instruction::F64Min => 0xA4,
            Instruction::F64Max => 0xA5,
            Instruction::F64CopySign => 0xA6,
            Instruction::I32WrapI64 => 0xA7,
            Instruction::I32TruncSF32 => 0xA8,
            Instruction::I32TruncUF32 => 0xA9,
            Instruction::I32TruncSF64 => 0xAA,
            Instruction::I32TruncUF64 => 0xAB,
            Instruction::I64ExtendSI32 => 0xAC,
            Instruction::I64ExtendUI32 => 0xAD,
            Instruction::I64TruncSF32 => 0xAE,
            Instruction::I64TruncUF32 => 0xAF,
            Instruction::I64TruncSF64 => 0xB0,
            Instruction::I64TruncUF64 => 0xB1,
            Instruction::F32ConvertSI32 => 0xB2,
            Instruction::F32ConvertUI32 => 0xB3,
            Instruction::F32ConvertSI64 => 0xB4,
            Instruction::F32ConvertUI64 => 0xB5,
            Instruction::F32DemoteF64 => 0xB6,
            Instruction::F64ConvertSI32 => 0xB7,
            Instruction::F64ConvertUI32 => 0xB8,
            Instruction::F64ConvertSI64 => 0xB9,
            Instruction::F64ConvertUI64 => 0xBA,
            Instruction::F64PromoteF32 => 0xBB,
            Instruction::I32ReinterpretF32 => 0xBC,
            Instruction::I64ReinterpretF64 => 0xBD,
            Instruction::F32ReinterpretI32 => 0xBE,
            Instruction::F64ReinterpretI64 => 0xBF,
        }
    }

    /// The opcode byte of the instruction in the binary format.
    pub fn code(&self) -> (opcode: u8)
        ensures
            opcode == self.opcode(),
    {
        match self {
            Instruction::Unreachable => 0x00,
            Instruction::Nop => 0x01,
            Instruction::Block(..) => 0x02,
            Instruction::Loop(..) => 0x03,
            Instruction::If(..) => 0x04,
            Instruction::Br(_) => 0x0C,
            Instruction::BrIf(_) => 0x0D,
            Instruction::BrTable(..) => 0x0E,
            Instruction::Return => 0x0F,
            Instruction::Call(_) => 0x10,
            Instruction::CallIndirect(_) => 0x11,
            Instruction::Drop => 0x1A,
            Instruction::Select => 0x1B,
            Instruction::LocalGet(_) => 0x20,
            Instruction::LocalSet(_) => 0x21,
            Instruction::LocalTee(_) => 0x22,
            Instruction::GlobalGet(_) => 0x23,
            Instruction::GlobalSet(_) => 0x24,
            Instruction::I32Load(_) => 0x28,
            Instruction::I64Load(_) => 0x29,
            Instruction::F32Load(_) => 0x2A,
            Instruction::F64Load(_) => 0x2B,
            Instruction::I32Load8S(_) => 0x2C,
            Instruction::I32Load8U(_) => 0x2D,
            Instruction::I32Load16S(_) => 0x2E,
            Instruction::I32Load16U(_) => 0x2F,
            Instruction::I64Load8S(_) => 0x30,
            Instruction::I64Load8U(_) => 0x31,
            Instruction::I64Load16S(_) => 0x32,
            Instruction::I64Load16U(_) => 0x33,
            Instruction::I64Load32S(_) => 0x34,
            Instruction::I64Load32U(_) => 0x35,
            Instruction::I32Store(_) => 0x36,
            Instruction::I64Store(_) => 0x37,
            Instruction::F32Store(_) => 0x38,
            Instruction::F64Store(_) => 0x39,
            Instruction::I32Store8(_) => 0x3A,
            Instruction::I32Store16(_) => 0x3B,
            Instruction::I64Store8(_) => 0x3C,
            Instruction::I64Store16(_) => 0x3D,
            Instruction::I64Store32(_) => 0x3E,
            Instruction::MemorySize => 0x3F,
            Instruction::MemoryGrow => 0x40,
            Instruction::I32Const(_) => 0x41,
            Instruction::I64Const(_) => 0x42,
            Instruction::F32Const(_) => 0x43,
            Instruction::F64Const(_) => 0x44,
            Instruction::I32Eqz => 0x45,
            Instruction::I32Eq => 0x46,
            Instruction::I32Ne => 0x47,
            Instruction::I32LtS => 0x48,
            Instruction::I32LtU => 0x49,
            Instruction::I32GtS => 0x4A,
            Instruction::I32GtU => 0x4B,
            Instruction::I32LeS => 0x4C,
            Instruction::I32LeU => 0x4D,
            Instruction::I32GeS => 0x4E,
            Instruction::I32GeU => 0x4F,
            Instruction::I64Eqz => 0x50,
            Instruction::I64Eq => 0x51,
            Instruction::I64Ne => 0x52,
            Instruction::I64LtS => 0x53,
            Instruction::I64LtU => 0x54,
            Instruction::I64GtS => 0x55,
            Instruction::I64GtU => 0x56,
            Instruction::I64LeS => 0x57,
            Instruction::I64LeU => 0x58,
            Instruction::I64GeS => 0x59,
            Instruction::I64GeU => 0x5A,
            Instruction::F32Eq => 0x5B,
            Instruction::F32Ne => 0x5C,
            Instruction::F32Lt => 0x5D,
            Instruction::F32Gt => 0x5E,
            Instruction::F32Le => 0x5F,
            Instruction::F32Ge => 0x60,
            Instruction::F64Eq => 0x61,
            Instruction::F64Ne => 0x62,
            Instruction::F64Lt => 0x63,
            Instruction::F64Gt => 0x64,
            Instruction::F64Le => 0x65,
            Instruction::F64Ge => 0x66,
            Instruction::I32Clz => 0x67,
            Instruction::I32Ctz => 0x68,
            Instruction::I32Popcnt => 0x69,
            Instruction::I32Add => 0x6A,
            Instruction::I32Sub => 0x6B,
            Instruction::I32Mul => 0x6C,
            Instruction::I32DivS => 0x6D,
            Instruction::I32DivU => 0x6E,
            Instruction::I32RemS => 0x6F,
            Instruction::I32RemU => 0x70,
            Instruction::I32And => 0x71,
            Instruction::I32Or => 0x72,
            Instruction::I32Xor => 0x73,
            Instruction::I32Shl => 0x74,
            Instruction::I32ShrS => 0x75,
            Instruction::I32ShrU => 0x76,
            Instruction::I32Rotl => 0x77,
            Instruction::I32Rotr => 0x78,
            Instruction::I64Clz => 0x79,
            Instruction::I64Ctz => 0x7A,
            Instruction::I64Popcnt => 0x7B,
            Instruction::I64Add => 0x7C,
            Instruction::I64Sub => 0x7D,
            Instruction::I64Mul => 0x7E,
            Instruction::I64DivS => 0x7F,
            Instruction::I64DivU => 0x80,
            Instruction::I64RemS => 0x81,
            Instruction::I64RemU => 0x82,
            Instruction::I64And => 0x83,
            Instruction::I64Or => 0x84,
            Instruction::I64Xor => 0x85,
            Instruction::I64Shl => 0x86,
            Instruction::I64ShrS => 0x87,
            Instruction::I64ShrU => 0x88,
            Instruction::I64Rotl => 0x89,
            Instruction::I64Rotr => 0x8A,
            Instruction::F32Abs => 0x8B,
            Instruction::F32Neg => 0x8C,
            Instruction::F32Ceil => 0x8D,
            Instruction::F32Floor => 0x8E,
            Instruction::F32Trunc => 0x8F,
            Instruction::F32Nearest => 0x90,
            Instruction::F32Sqrt => 0x91,
            Instruction::F32Add => 0x92,
            Instruction::F32Sub => 0x93,
            Instruction::F32Mul => 0x94,
            Instruction::F32Div => 0x95,
            Instruction::F32Min => 0x96,
            Instruction::F32Max => 0x97,
            Instruction::F32CopySign => 0x98,
            Instruction::F64Abs => 0x99,
            Instruction::F64Neg => 0x9A,
            Instruction::F64Ceil => 0x9B,
            Instruction::F64Floor => 0x9C,
            Instruction::F64Trunc => 0x9D,
            Instruction::F64Nearest => 0x9E,
            Instruction::F64Sqrt => 0x9F,
            Instruction::F64Add => 0xA0,
            Instruction::F64Sub => 0xA1,
            Instruction::F64Mul => 0xA2,
            Instruction::F64Div => 0xA3,
            Instruction::F64Min => 0xA4,
            Instruction::F64Max => 0xA5,
            Instruction::F64CopySign => 0xA6,
            Instruction::I32WrapI64 => 0xA7,
            Instruction::I32TruncSF32 => 0xA8,
            Instruction::I32TruncUF32 => 0xA9,
            Instruction::I32TruncSF64 => 0xAA,
            Instruction::I32TruncUF64 => 0xAB,
            Instruction::I64ExtendSI32 => 0xAC,
            Instruction::I64ExtendUI32 => 0xAD,
            Instruction::I64TruncSF32 => 0xAE,
            Instruction::I64TruncUF32 => 0xAF,
            Instruction::I64TruncSF64 => 0xB0,
            Instruction::I64TruncUF64 => 0xB1,
            Instruction::F32ConvertSI32 => 0xB2,
            Instruction::F32ConvertUI32 => 0xB3,
            Instruction::F32ConvertSI64 => 0xB4,
            Instruction::F32ConvertUI64 => 0xB5,
            Instruction::F32DemoteF64 => 0xB6,
            Instruction::F64ConvertSI32 => 0xB7,
            Instruction::F64ConvertUI32 => 0xB8,
            Instruction::F64ConvertSI64 => 0xB9,
            Instruction::F64ConvertUI64 => 0xBA,
            Instruction::F64PromoteF32 => 0xBB,
            Instruction::I32ReinterpretF32 => 0xBC,
            Instruction::I64ReinterpretF64 => 0xBD,
            Instruction::F32ReinterpretI32 => 0xBE,
            Instruction::F64ReinterpretI64 => 0xBF,
        }
    }

    /// What the instruction carries besides its opcode.
    pub open spec fn immediate(&self) -> Immediate
        decreases self,
    {
        match self {
            Instruction::Block(block_type, body) | Instruction::Loop(block_type, body) => {
                Immediate::Block(*block_type, instruction_views(body@))
            },
            Instruction::If(block_type, then_body, else_body) => Immediate::If(
                *block_type,
                instruction_views(then_body@),
                match else_body {
                    Some(body) => Some(instruction_views(body@)),
                    None => None,
                },
            ),
            Instruction::Br(index)
            | Instruction::BrIf(index)
            | Instruction::Call(index)
            | Instruction::CallIndirect(index)
            | Instruction::LocalGet(index)
            | Instruction::LocalSet(index)
            | Instruction::LocalTee(index)
            | Instruction::GlobalGet(index)
            | Instruction::GlobalSet(index) => Immediate::Index(*index),
            Instruction::BrTable(labels, default) => Immediate::Table(labels@, *default),
            Instruction::I32Load(arg)
            | Instruction::I64Load(arg)
            | Instruction::F32Load(arg)
            | Instruction::F64Load(arg)
            | Instruction::I32Load8S(arg)
            | Instruction::I32Load8U(arg)
            | Instruction::I32Load16S(arg)
            | Instruction::I32Load16U(arg)
            | Instruction::I64Load8S(arg)
            | Instruction::I64Load8U(arg)
            | Instruction::I64Load16S(arg)
            | Instruction::I64Load16U(arg)
            | Instruction::I64Load32S(arg)
            | Instruction::I64Load32U(arg)
            | Instruction::I32Store(arg)
            | Instruction::I64Store(arg)
            | Instruction::F32Store(arg)
            | Instruction::F64Store(arg)
            | Instruction::I32Store8(arg)
            | Instruction::I32Store16(arg)
            | Instruction::I64Store8(arg)
            | Instruction::I64Store16(arg)
            | Instruction::I64Store32(arg) => Immediate::Memory(*arg),
            Instruction::I32Const(value) => Immediate::I32(*value),
            Instruction::I64Const(value) => Immediate::I64(*value),
            Instruction::F32Const(bits) => Immediate::F32(*bits),
            Instruction::F64Const(bits) => Immediate::F64(*bits),
            _ => Immediate::Nothing,
        }
    }
}

impl View for Instruction {
    type V = InstructionView;

    open spec fn view(&self) -> InstructionView {
        InstructionView { opcode: self.opcode(), immediate: self.immediate() }
    }
}

/// The models of a sequence of instructions, one by one.
pub open spec fn instruction_views(instructions: Seq<Instruction>) -> Seq<InstructionView>
    decreases instructions,
{
    Seq::new(
        instructions.len(),
        |i: int|
            if 0 <= i < instructions.len() {
                InstructionView {
                    opcode: instructions[i].opcode(),
                    immediate: instructions[i].immediate(),
                }
            } else {
                arbitrary()
            },
    )
}

/// An index into one of the index spaces of a module, tagged with the space it counts in.
#[derive(Debug, Copy, Clone, PartialEq, Eq, Structural)]
pub enum Index {
    Type(u32),
    Function(u32),
    Table(u32),
    Memory(u32),
    Global(u32),
    Local(u32),
    Label(u32),
}

/// A function defined by the module: the index of its type, its locals as groups of
/// `(count, type)` in the order of the binary, and its body.
#[derive(Debug, PartialEq, Eq)]
pub struct Function {
    pub function_type: u32,
    pub locals: Vec<(u32, ValueType)>,
    pub body: Expression,
}

/// A table defined by the module.
#[derive(Debug, Copy, Clone, PartialEq, Eq, Structural)]
pub struct Table {
    pub table_type: TableType,
}

/// A memory defined by the module.
#[derive(Debug, Copy, Clone, PartialEq, Eq, Structural)]
pub struct Memory {
    pub memory_type: MemoryType,
}

/// A global defined by the module, with the expression that gives its first value.
#[derive(Debug, PartialEq, Eq)]
pub struct Global {
    pub global_type: GlobalType,
    pub init: Expression,
}

/// An element segment: function indices written into a table at an offset.
#[derive(Debug, PartialEq, Eq)]
pub struct Element {
    pub table: u32,
    pub offset: Expression,
    pub init: Vec<u32>,
}

/// A data segment: bytes written into a memory at an offset.
#[derive(Debug, PartialEq, Eq)]
pub struct Data {
    pub data: u32,
    pub offset: Expression,
    pub init: Vec<u8>,
}

/// The function that runs when the module is instantiated.
#[derive(Debug, Copy, Clone, PartialEq, Eq, Structural)]
pub struct StartFunction {
    pub function: u32,
}

/// An export: a name, and the kind and index of what is exported.
#[derive(Debug, PartialEq, Eq)]
pub struct Export {
    pub name: String,
    pub descriptor: Index,
}

/// An import: the two names it is looked up by, and the type it must have.
#[derive(Debug, PartialEq, Eq)]
pub struct Import {
    pub module: String,
    pub name: String,
    pub descriptor: ImportDescriptor,
}

/// What an import brings in: a function of a given type index, a table, a memory or a global.
#[derive(Debug, Copy, Clone, PartialEq, Eq, Structural)]
pub enum ImportDescriptor {
    Function(u32),
    Table(TableType),
    Memory(MemoryType),
    Global(GlobalType),
}

/// A custom section: its name and its payload, a slice of the decoded input.
pub type CustomSection<'a> = (String, &'a [u8]);

/// A decoded module. Only the payloads of the custom sections borrow from the input.
#[derive(Debug, PartialEq, Eq)]
pub struct Module<'a> {
    pub custom_sections: Vec<CustomSection<'a>>,
    pub function_types: Vec<FunctionType>,
    pub functions: Vec<Function>,
    pub tables: Vec<Table>,
    pub memories: Vec<Memory>,
    pub globals: Vec<Global>,
    pub elements: Vec<Element>,
    pub data: Vec<Data>,
    pub start: Option<StartFunction>,
    pub imports: Vec<Import>,
    pub exports: Vec<Export>,
}

impl View for ValueType {
    type V = ValueType;

    open spec fn view(&self) -> ValueType {
        *self
    }
}

impl View for Table {
    type V = Table;

    open spec fn view(&self) -> Table {
        *self
    }
}

impl View for Memory {
    type V = Memory;

    open spec fn view(&self) -> Memory {
        *self
    }
}

/// The models of a sequence of items, one by one.
pub open spec fn views<T: View>(items: Seq<T>) -> Seq<T::V> {
    Seq::new(items.len(), |i: int| items[i]@)
}

/// The models of a sequence with one more item are those of the sequence with one more
/// model.
pub proof fn lemma_views_push<T: View>(items: Seq<T>, item: T)
    ensures
        views(items.push(item)) == views(items).push(item@),
{
    assert(views(items.push(item)) =~= views(items).push(item@));
}

/// As [`lemma_views_push`], for instructions.
pub proof fn lemma_instruction_views_push(items: Seq<Instruction>, item: Instruction)
    ensures
        instruction_views(items.push(item)) == instruction_views(items).push(item@),
{
    assert(instruction_views(items.push(item)) =~= instruction_views(items).push(item@));
}

/// The model of a function.
pub struct FunctionView {
    pub function_type: u32,
    pub locals: Seq<(u32, ValueType)>,
    pub body: Seq<InstructionView>,
}

impl View for Function {
    type V = FunctionView;

    open spec fn view(&self) -> FunctionView {
        FunctionView {
            function_type: self.function_type,
            locals: self.locals@,
            body: instruction_views(self.body@),
        }
    }
}

/// The model of a global.
pub struct GlobalView {
    pub global_type: GlobalType,
    pub init: Seq<InstructionView>,
}

impl View for Global {
    type V = GlobalView;

    open spec fn view(&self) -> GlobalView {
        GlobalView { global_type: self.global_type, init: instruction_views(self.init@) }
    }
}

/// The model of an element segment.
pub struct ElementView {
    pub table: u32,
    pub offset: Seq<InstructionView>,
    pub init: Seq<u32>,
}

impl View for Element {
    type V = ElementView;

    open spec fn view(&self) -> ElementView {
        ElementView {
            table: self.table,
            offset: instruction_views(self.offset@),
            init: self.init@,
        }
    }
}

/// The model of a data segment.
pub struct DataView {
    pub data: u32,
    pub offset: Seq<InstructionView>,
    pub init: Seq<u8>,
}

impl View for Data {
    type V = DataView;

    open spec fn view(&self) -> DataView {
        DataView { data: self.data, offset: instruction_views(self.offset@), init: self.init@ }
    }
}

/// The model of an export.
pub struct ExportView {
    pub name: Seq<char>,
    pub descriptor: Index,
}

impl View for Export {
    type V = ExportView;

    open spec fn view(&self) -> ExportView {
        ExportView { name: self.name@, descriptor: self.descriptor }
    }
}

/// The model of an import.
pub struct ImportView {
    pub module: Seq<char>,
    pub name: Seq<char>,
    pub descriptor: ImportDescriptor,
}

impl View for Import {
    type V = ImportView;

    open spec fn view(&self) -> ImportView {
        ImportView { module: self.module@, name: self.name@, descriptor: self.descriptor }
    }
}

/// The model of a module.
pub struct ModuleView {
    pub custom_sections: Seq<(Seq<char>, Seq<u8>)>,
    pub function_types: Seq<(Seq<ValueType>, Seq<ValueType>)>,
    pub functions: Seq<FunctionView>,
    pub tables: Seq<Table>,
    pub memories: Seq<Memory>,
    pub globals: Seq<GlobalView>,
    pub elements: Seq<ElementView>,
    pub data: Seq<DataView>,
    pub start: Option<StartFunction>,
    pub imports: Seq<ImportView>,
    pub exports: Seq<ExportView>,
}

impl<'a> View for Module<'a> {
    type V = ModuleView;

    open spec fn view(&self) -> ModuleView {
        ModuleView {
            custom_sections: views(self.custom_sections@),
            function_types: views(self.function_types@),
            functions: views(self.functions@),
            tables: views(self.tables@),
            memories: views(self.memories@),
            globals: views(self.globals@),
            elements: views(self.elements@),
            data: views(self.data@),
            start: self.start,
            imports: views(self.imports@),
            exports: views(self.exports@),
        }
    }
}

} // verus!
