//! The manifest that the reference test tooling writes for a source file.

use vstd::prelude::*;

verus! {

/// The commands that the reference test tooling wrote down for one source file.
#[derive(Debug)]
pub struct Manifest {
    pub source_filename: String,
    pub commands: Vec<Command>,
}

/// A command of a manifest, by its kind.
#[derive(Debug)]
pub enum Command {
    Action(CommandAction),
    AssertExhaustion(CommandAssertExhaustion),
    AssertInvalid(CommandAssertInvalid),
    AssertMalformed(CommandAssertMalformed),
    AssertTrap(CommandAssertTrap),
    AssertUninstantiable(CommandAssertUninstantiable),
    AssertUnlinkable(CommandAssertUnlinkable),
    AssertReturn(CommandAssertReturn),
    AssertReturnArithmeticNan(CommandAssertReturnArithmeticNan),
    AssertReturnCanonicalNan(CommandAssertReturnCanonicalNan),
    Module(CommandModule),
    Register(CommandRegister),
}

#[derive(Debug)]
pub struct CommandAction {
    pub line: u32,
    pub action: Action,
    pub expected: Vec<Value>,
}

#[derive(Debug)]
pub struct CommandAssertExhaustion {
    pub line: u32,
    pub action: Action,
    pub text: String,
    pub expected: Vec<Value>,
}

#[derive(Debug)]
pub struct CommandAssertInvalid {
    pub line: u32,
    pub filename: String,
    pub text: String,
}

#[derive(Debug)]
pub struct CommandAssertTrap {
    pub line: u32,
    pub action: Action,
    pub text: String,
    pub expected: Vec<Value>,
}

#[derive(Debug)]
pub struct CommandAssertUninstantiable {
    pub line: u32,
    pub filename: Option<String>,
    pub text: String,
}

#[derive(Debug)]
pub struct CommandAssertUnlinkable {
    pub line: u32,
    pub filename: Option<String>,
    pub text: String,
}

#[derive(Debug)]
pub struct CommandAssertReturn {
    pub line: u32,
    pub action: Action,
    pub expected: Vec<Value>,
}

#[derive(Debug)]
pub struct CommandAssertReturnArithmeticNan {
    pub line: u32,
    pub action: Action,
    pub expected: Vec<Value>,
}

#[derive(Debug)]
pub struct CommandAssertReturnCanonicalNan {
    pub line: u32,
    pub action: Action,
    pub expected: Vec<Value>,
}

#[derive(Debug)]
pub struct CommandAssertMalformed {
    pub line: u32,
    pub filename: String,
    pub text: String,
}

#[derive(Debug)]
pub struct CommandModule {
    pub line: u32,
    pub filename: String,
}

#[derive(Debug)]
pub struct CommandRegister {
    pub line: u32,
    pub name: Option<String>,
    pub alias: String,
}

/// What a command does to a module: a call of an export, or a read of one.
#[derive(Debug)]
pub enum Action {
    Invoke { field: String, args: Vec<Value> },
    Get { field: String, module: Option<String> },
}

/// A value as the manifest writes it: its type, and its digits if it has any.
#[derive(Debug)]
pub enum Value {
    I32 { value: Option<String> },
    I64 { value: Option<String> },
    F32 { value: Option<String> },
    F64 { value: Option<String> },
}

} // verus!
