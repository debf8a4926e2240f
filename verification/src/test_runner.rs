//! What becomes of the commands of a test manifest: which are run, on which file, and
//! what each reports.

pub mod manifest;

use crate::decoder::cursor::Fault;
use crate::decoder::modules::{decode, module_of};
use crate::test_runner::manifest::{Command, CommandAssertMalformed, CommandModule, Manifest};
use vstd::prelude::*;
use vstd::string::StringExecFns;

verus! {

/// How a command ended.
#[derive(Debug, PartialEq, Eq)]
pub enum TestState {
    Pass,
    Fail { message: String },
    Ignore,
}

/// The outcome of one command of a manifest.
#[derive(Debug, PartialEq, Eq)]
pub struct TestResult {
    pub test_name: String,
    pub file_name: String,
    pub line: u32,
    pub state: TestState,
}

impl TestResult {
    /// The outcome of a command that went as it should.
    pub fn pass(test_name: String, file_name: String, line: u32) -> (result: TestResult)
        ensures
            result == (TestResult { test_name, file_name, line, state: TestState::Pass }),
    {
        TestResult { test_name, line, file_name, state: TestState::Pass }
    }

    /// The outcome of a command that did not go as it should, with the reason.
    pub fn fail(test_name: String, file_name: String, line: u32, message: String) -> (result:
        TestResult)
        ensures
            result == (TestResult {
                test_name,
                file_name,
                line,
                state: TestState::Fail { message },
            }),
    {
        TestResult { test_name, line, file_name, state: TestState::Fail { message } }
    }

    /// The outcome of a command that is not run.
    pub fn ignore(test_name: String, file_name: String, line: u32) -> (result: TestResult)
        ensures
            result == (TestResult { test_name, file_name, line, state: TestState::Ignore }),
    {
        TestResult { test_name, line, file_name, state: TestState::Ignore }
    }
}

/// A digit as text.
pub open spec fn digit_of(digit: nat) -> Seq<char> {
    if digit == 0 {
        "0"@
    } else if digit == 1 {
        "1"@
    } else if digit == 2 {
        "2"@
    } else if digit == 3 {
        "3"@
    } else if digit == 4 {
        "4"@
    } else if digit == 5 {
        "5"@
    } else if digit == 6 {
        "6"@
    } else if digit == 7 {
        "7"@
    } else if digit == 8 {
        "8"@
    } else {
        "9"@
    }
}

/// A number in decimal digits.
pub open spec fn decimal_of(n: nat) -> Seq<char>
    decreases n,
{
    if n < 10 {
        digit_of(n)
    } else {
        decimal_of(n / 10) + digit_of(n % 10)
    }
}

/// A digit as text.
pub fn digit_text(digit: usize) -> (text: &'static str)
    ensures
        text@ == digit_of(digit as nat),
{
    if digit == 0 {
        "0"
    } else if digit == 1 {
        "1"
    } else if digit == 2 {
        "2"
    } else if digit == 3 {
        "3"
    } else if digit == 4 {
        "4"
    } else if digit == 5 {
        "5"
    } else if digit == 6 {
        "6"
    } else if digit == 7 {
        "7"
    } else if digit == 8 {
        "8"
    } else {
        "9"
    }
}

/// A number in decimal digits.
pub fn decimal(n: usize) -> (text: String)
    ensures
        text@ == decimal_of(n as nat),
    decreases n,
{
    if n < 10 {
        String::from_str(digit_text(n))
    } else {
        decimal(n / 10).concat(digit_text(n % 10))
    }
}

/// The name of the test at `index`: `#`, the index, and what the test is.
pub open spec fn test_name_of(index: nat, label: Seq<char>) -> Seq<char> {
    "#"@ + decimal_of(index) + label
}

/// The name of the test at `index`, where the manifest has a text for it.
pub open spec fn test_name_with(index: nat, label: Seq<char>, text: Seq<char>) -> Seq<char> {
    "#"@ + decimal_of(index) + label + text
}

/// The name of the test at `index`.
pub fn test_name(index: usize, label: &str) -> (name: String)
    ensures
        name@ == test_name_of(index as nat, label@),
{
    String::from_str("#").concat(decimal(index).as_str()).concat(label)
}

/// The name of the test at `index`, with the text of the manifest behind it.
pub fn test_name_and_text(index: usize, label: &str, text: &String) -> (name: String)
    ensures
        name@ == test_name_with(index as nat, label@, text@),
{
    String::from_str("#").concat(decimal(index).as_str()).concat(label).concat(text.as_str())
}

// What the names of the tests that are run end in.
pub const INSTANTIATE: &'static str = " Instantiate module";
pub const MALFORMED: &'static str = " Malformed module: ";

/// Why a module that should decode did not.
pub open spec fn instantiation_message(fault: Fault, filename: Seq<char>) -> Seq<char> {
    "Expected module to instantiate but received error: "@ + fault.message + " (offset: "@
        + decimal_of(fault.offset as nat) + ", file: "@ + filename + ")"@
}

/// Why a module that should not decode is a failure.
pub open spec fn malformed_message(filename: Seq<char>) -> Seq<char> {
    "Expected module to be malformed but parsed properly (file: "@ + filename + ")"@
}

/// Runs a `module` command on the bytes of its file: the test passes where the bytes
/// decode.
pub fn test_module_instantiation(
    command: &CommandModule,
    index: usize,
    file: &[u8],
) -> (result: TestResult)
    ensures
        result.test_name@ == test_name_of(index as nat, INSTANTIATE@),
        result.file_name@ == command.filename@,
        result.line == command.line,
        match module_of(file@) {
            Ok(_) => result.state is Pass,
            Err(fault) => result.state matches TestState::Fail { message } && message@
                == instantiation_message(fault, command.filename@),
        },
{
    let name = test_name(index, INSTANTIATE);
    match decode(file) {
        Err(error) => {
            let message = String::from_str(
                "Expected module to instantiate but received error: ",
            ).concat(error.message.as_str()).concat(" (offset: ").concat(
                decimal(error.offset).as_str(),
            ).concat(", file: ").concat(command.filename.as_str()).concat(")");
            TestResult::fail(name, command.filename.clone(), command.line, message)
        },
        Ok(_) => TestResult::pass(name, command.filename.clone(), command.line),
    }
}

/// Runs an `assert_malformed` command on the bytes of its file: the test passes where
/// the bytes do not decode.
pub fn test_module_malformed(
    command: &CommandAssertMalformed,
    index: usize,
    file: &[u8],
) -> (result: TestResult)
    ensures
        result.test_name@ == test_name_with(index as nat, MALFORMED@, command.text@),
        result.file_name@ == command.filename@,
        result.line == command.line,
        match module_of(file@) {
            Ok(_) => result.state matches TestState::Fail { message } && message@
                == malformed_message(command.filename@),
            Err(_) => result.state is Pass,
        },
{
    let name = test_name_and_text(index, MALFORMED, &command.text);
    match decode(file) {
        Ok(_) => {
            let message = String::from_str(
                "Expected module to be malformed but parsed properly (file: ",
            ).concat(command.filename.as_str()).concat(")");
            TestResult::fail(name, command.filename.clone(), command.line, message)
        },
        Err(_) => TestResult::pass(name, command.filename.clone(), command.line),
    }
}

/// The file that a command is run on, for the commands that are run.
pub fn file_to_read(command: &Command) -> (filename: Option<&String>)
    ensures
        filename == match command {
            Command::Module(command) => Some(&command.filename),
            Command::AssertMalformed(command) => Some(&command.filename),
            _ => None,
        },
{
    match command {
        Command::Module(command) => Some(&command.filename),
        Command::AssertMalformed(command) => Some(&command.filename),
        _ => None,
    }
}

/// A name, or the empty text where there is none.
pub fn name_or_empty(name: &Option<String>) -> (text: String)
    ensures
        text@ == match name {
            Some(name) => name@,
            None => Seq::<char>::empty(),
        },
{
    match name {
        Some(name) => name.clone(),
        None => String::new(),
    }
}

/// `result` is the outcome of the command at `index` of a manifest, run on the bytes
/// `file`: a `module` command passes where the bytes decode, an `assert_malformed` command
/// where they do not, and every other command is not run. The result has the line of the
/// command, the file that the command names, and a name made of the index, the kind of
/// the command and the text of the manifest.
pub open spec fn is_outcome(
    result: TestResult,
    command: Command,
    index: nat,
    file: Seq<u8>,
) -> bool {
    &&& match command {
        Command::Module(command) => match module_of(file) {
            Ok(_) => result.state is Pass,
            Err(fault) => result.state matches TestState::Fail { message } && message@
                == instantiation_message(fault, command.filename@),
        },
        Command::AssertMalformed(command) => match module_of(file) {
            Ok(_) => result.state matches TestState::Fail { message } && message@
                == malformed_message(command.filename@),
            Err(_) => result.state is Pass,
        },
        _ => result.state is Ignore,
    }
    &&& result.file_name@ == match command {
        Command::Module(command) => command.filename@,
        Command::AssertMalformed(command) => command.filename@,
        Command::AssertInvalid(command) => command.filename@,
        Command::AssertUninstantiable(command) => match command.filename {
            Some(filename) => filename@,
            None => Seq::<char>::empty(),
        },
        Command::AssertUnlinkable(command) => match command.filename {
            Some(filename) => filename@,
            None => Seq::<char>::empty(),
        },
        _ => Seq::<char>::empty(),
    }
    &&& result.line == match command {
        Command::Action(command) => command.line,
        Command::AssertExhaustion(command) => command.line,
        Command::AssertInvalid(command) => command.line,
        Command::AssertMalformed(command) => command.line,
        Command::AssertTrap(command) => command.line,
        Command::AssertUninstantiable(command) => command.line,
        Command::AssertUnlinkable(command) => command.line,
        Command::AssertReturn(command) => command.line,
        Command::AssertReturnArithmeticNan(command) => command.line,
        Command::AssertReturnCanonicalNan(command) => command.line,
        Command::Module(command) => command.line,
        Command::Register(command) => command.line,
    }
    &&& result.test_name@ == match command {
        Command::Action(_) => test_name_of(index, " Action"@),
        Command::AssertExhaustion(command) => test_name_with(
            index,
            " Exhaustion: "@,
            command.text@,
        ),
        Command::AssertInvalid(command) => test_name_with(
            index,
            " Invalid module: "@,
            command.text@,
        ),
        Command::AssertMalformed(command) => test_name_with(
            index,
            MALFORMED@,
            command.text@,
        ),
        Command::AssertTrap(command) => test_name_with(index, " Trap: "@, command.text@),
        Command::AssertUninstantiable(command) => test_name_with(
            index,
            " Uninstantiable  module: "@,
            command.text@,
        ),
        Command::AssertUnlinkable(command) => test_name_with(
            index,
            " Unlinkable module: "@,
            command.text@,
        ),
        Command::AssertReturn(_) => test_name_of(index, " Return"@),
        Command::AssertReturnArithmeticNan(_) => test_name_of(
            index,
            " Return arithmetic NaN"@,
        ),
        Command::AssertReturnCanonicalNan(_) => test_name_of(
            index,
            " Return canonical NaN"@,
        ),
        Command::Module(_) => test_name_of(index, INSTANTIATE@),
        Command::Register(_) => test_name_of(index, " Register"@),
    }
}

/// The outcome of the command at `index` of a manifest, run on `file`, the bytes of the
/// file that the command names.
pub fn run_command(command: &Command, index: usize, file: &[u8]) -> (result: TestResult)
    ensures
        is_outcome(result, *command, index as nat, file@),
{
    match command {
        Command::Module(command) => test_module_instantiation(command, index, file),
        Command::AssertMalformed(command) => test_module_malformed(command, index, file),
        Command::Action(command) => TestResult::ignore(
            test_name(index, " Action"),
            String::new(),
            command.line,
        ),
        Command::AssertExhaustion(command) => TestResult::ignore(
            test_name_and_text(index, " Exhaustion: ", &command.text),
            String::new(),
            command.line,
        ),
        Command::AssertInvalid(command) => TestResult::ignore(
            test_name_and_text(index, " Invalid module: ", &command.text),
            command.filename.clone(),
            command.line,
        ),
        Command::AssertTrap(command) => TestResult::ignore(
            test_name_and_text(index, " Trap: ", &command.text),
            String::new(),
            command.line,
        ),
        Command::AssertUninstantiable(command) => TestResult::ignore(
            test_name_and_text(index, " Uninstantiable  module: ", &command.text),
            name_or_empty(&command.filename),
            command.line,
        ),
        Command::AssertUnlinkable(command) => TestResult::ignore(
            test_name_and_text(index, " Unlinkable module: ", &command.text),
            name_or_empty(&command.filename),
            command.line,
        ),
        Command::AssertReturn(command) => TestResult::ignore(
            test_name(index, " Return"),
            String::new(),
            command.line,
        ),
        Command::AssertReturnArithmeticNan(command) => TestResult::ignore(
            test_name(index, " Return arithmetic NaN"),
            String::new(),
            command.line,
        ),
        Command::AssertReturnCanonicalNan(command) => TestResult::ignore(
            test_name(index, " Return canonical NaN"),
            String::new(),
            command.line,
        ),
        Command::Register(command) => TestResult::ignore(
            test_name(index, " Register"),
            String::new(),
            command.line,
        ),
    }
}

/// The bytes of the file for the command at `index`, where `files` has them.
pub open spec fn file_for(files: Seq<Vec<u8>>, index: int) -> Seq<u8> {
    if 0 <= index < files.len() {
        files[index]@
    } else {
        Seq::empty()
    }
}

/// The outcomes of the commands of a manifest, in their order. The command at an index is
/// run on the bytes in `files` at that index, or on no bytes where `files` is shorter.
pub fn run_suite(manifest: &Manifest, files: &Vec<Vec<u8>>) -> (results: Vec<TestResult>)
    ensures
        results.len() == manifest.commands.len(),
        forall|i: int|
            0 <= i < results.len() ==> is_outcome(
                #[trigger] results[i],
                manifest.commands[i],
                i as nat,
                file_for(files@, i),
            ),
{
    let mut results: Vec<TestResult> = Vec::new();
    let none: Vec<u8> = Vec::new();
    let mut index: usize = 0;
    while index < manifest.commands.len()
        invariant
            index <= manifest.commands.len(),
            results.len() == index,
            none@ == Seq::<u8>::empty(),
            forall|i: int|
                0 <= i < results.len() ==> is_outcome(
                    #[trigger] results[i],
                    manifest.commands[i],
                    i as nat,
                    file_for(files@, i),
                ),
        decreases manifest.commands.len() - index,
    {
        let file = if index < files.len() {
            &files[index]
        } else {
            &none
        };
        let result = run_command(&manifest.commands[index], index, file.as_slice());
        results.push(result);
        index += 1;
    }
    results
}

/// How many of the results passed, failed and were not run.
pub struct Tally {
    pub passing: usize,
    pub failing: usize,
    pub ignored: usize,
}

/// How many of the results are in a state that `counted` holds of.
pub open spec fn count_of(results: Seq<TestResult>, counted: spec_fn(TestState) -> bool) -> nat
    decreases results.len(),
{
    if results.len() == 0 {
        0
    } else {
        count_of(results.drop_last(), counted) + if counted(results.last().state) {
            1nat
        } else {
            0nat
        }
    }
}

/// The states of tests that passed.
pub open spec fn passed() -> spec_fn(TestState) -> bool {
    |state: TestState| state is Pass
}

/// The states of tests that failed.
pub open spec fn failed() -> spec_fn(TestState) -> bool {
    |state: TestState| state is Fail
}

/// The states of tests that were not run.
pub open spec fn ignored() -> spec_fn(TestState) -> bool {
    |state: TestState| state is Ignore
}

/// Counts the results by their state.
pub fn tally(results: &Vec<TestResult>) -> (counts: Tally)
    ensures
        counts.passing == count_of(results@, passed()),
        counts.failing == count_of(results@, failed()),
        counts.ignored == count_of(results@, ignored()),
        counts.passing + counts.failing + counts.ignored == results.len(),
{
    let mut counts = Tally { passing: 0, failing: 0, ignored: 0 };
    let mut i: usize = 0;
    while i < results.len()
        invariant
            i <= results.len(),
            counts.passing == count_of(results@.take(i as int), passed()),
            counts.failing == count_of(results@.take(i as int), failed()),
            counts.ignored == count_of(results@.take(i as int), ignored()),
            counts.passing + counts.failing + counts.ignored == i,
        decreases results.len() - i,
    {
        proof {
            assert(results@.take(i + 1).drop_last() =~= results@.take(i as int));
        }
        match &results[i].state {
            TestState::Pass => {
                counts.passing += 1;
            },
            TestState::Fail { message: _ } => {
                counts.failing += 1;
            },
            TestState::Ignore => {
                counts.ignored += 1;
            },
        }
        i += 1;
    }
    proof {
        assert(results@.take(i as int) =~= results@);
    }
    counts
}

} // verus!
