use vstd::prelude::*;
use crate::ast::PreparedNode;
use crate::exceptions::{RunError, exc_summary, internal_prefix, opt_text};
use crate::resource::{ResourceLimits, is_instruction_exhaustion};
use crate::object::repr_of;
use crate::exceptions::fault_of;
use crate::semantics::{initial_machine, node_spec, program_spec};
use crate::run::Executor;
use vstd::string::StringSliceAdditionalSpecFns;

verus! {

/// The program ran to completion.
pub const STATUS_OK: i32 = 0;

/// The program raised an exception, or reached an engine limitation.
pub const STATUS_RUNTIME_ERROR: i32 = 1;

/// The source could not be parsed or prepared.
pub const STATUS_PARSE_ERROR: i32 = 2;

/// A missing buffer or an unusable argument.
pub const STATUS_INVALID_ARGUMENT: i32 = -1;

/// The source is not valid UTF-8.
pub const STATUS_INVALID_ENCODING: i32 = -2;

/// Static checking found nothing.
pub const CHECK_CLEAN: i32 = 0;

/// Static checking found issues.
pub const CHECK_ISSUES: i32 = 1;

/// Static checking failed in itself.
pub const CHECK_INTERNAL_ERROR: i32 = -1;

/// The name and version of the engine.
pub open spec fn version_text() -> Seq<char> {
    "Monty Native v1.1.0"@
}

pub fn monty_version() -> (r: &'static str)
    ensures
        r@ == version_text(),
{
    "Monty Native v1.1.0"
}

/// Limits from raw budgets, where zero leaves a resource unbounded.
pub fn limits_from_raw(gas_limit: u64, memory_limit: usize) -> (r: ResourceLimits)
    ensures
        r.max_instructions == if gas_limit > 0 {
            Some(gas_limit)
        } else {
            None
        },
        r.max_memory == if memory_limit > 0 {
            Some(memory_limit)
        } else {
            None
        },
{
    ResourceLimits {
        max_instructions: if gas_limit > 0 {
            Some(gas_limit)
        } else {
            None
        },
        max_memory: if memory_limit > 0 {
            Some(memory_limit)
        } else {
            None
        },
    }
}

/// What one execution leaves: the printed text and the debug text of the
/// result, or the error that stopped it.
#[derive(Debug)]
pub struct ProgramRun {
    pub output: String,
    pub result: Result<String, RunError>,
}

/// Runs a prepared program under the given limits, on a heap of its own that
/// is dropped once the result is rendered.
///
/// The printed text and the result are those of `program_spec`. Every
/// statement counts one unit of work, so a program of two statements or more
/// cannot succeed on a budget of one; once its first statement has run, it
/// stops for want of instructions.
pub fn execute_program(namespace_size: usize, nodes: &Vec<PreparedNode>, limits: ResourceLimits) -> (r:
    ProgramRun)
    ensures
        ({
            let (m, res) = program_spec(namespace_size as nat, nodes@, limits);
            &&& r.output@ == m.out
            &&& match res {
                Ok(o) => r.result matches Ok(v) && v@ == repr_of(o, m.heap),
                Err(f) => r.result matches Err(e) && fault_of(e) == f,
            }
        }),
        nodes@.len() >= 2 && limits.max_instructions == Some(1u64) ==> r.result is Err,
        nodes@.len() >= 2 && limits.max_instructions == Some(1u64) && node_spec(
            nodes@[0],
            initial_machine(namespace_size as nat),
            limits,
        ).1 is Ok ==> (r.result matches Err(e) && is_instruction_exhaustion(e)),
{
    let mut ex = Executor::new(namespace_size, limits);
    let result = match ex.run(nodes) {
        Ok(o) => Ok(o.py_repr(&ex.heap)),
        Err(e) => Err(e),
    };
    ProgramRun { output: ex.output, result }
}

/// The text of a successful run: the printed text, a newline where that text
/// does not already end in one, then the result.
pub open spec fn success_text(output: Seq<char>, value: Seq<char>) -> Seq<char> {
    if output.len() == 0 || output.last() == '\n' {
        output + value
    } else {
        output + "\n"@ + value
    }
}

/// The tag that opens the text of a failed run.
pub open spec fn failure_prefix() -> Seq<char> {
    "[Native v1.1.0] Runtime Error:\n"@
}

/// The text of an error, as `RunError::summary` renders it.
pub open spec fn error_text(e: RunError) -> Seq<char> {
    match e {
        RunError::Exc(x) => exc_summary(x.exc_type, opt_text(x.message)),
        RunError::Internal(m) => internal_prefix() + m@,
    }
}

/// A status code and the text that goes with it.
#[derive(Debug)]
pub struct Outcome {
    pub status: i32,
    pub text: String,
}

/// The status and text that report a run.
pub fn report_run(run: &ProgramRun) -> (r: Outcome)
    ensures
        match run.result {
            Ok(v) => r.status == STATUS_OK && r.text@ == success_text(run.output@, v@),
            Err(e) => r.status == STATUS_RUNTIME_ERROR && r.text@ == failure_prefix() + error_text(e),
        },
{
    match &run.result {
        Ok(v) => {
            let mut text = String::from_str(run.output.as_str());
            let n = run.output.as_str().unicode_len();
            if n > 0 && run.output.as_str().get_char(n - 1) != '\n' {
                text.append("\n");
            }
            text.append(v.as_str());
            Outcome { status: STATUS_OK, text }
        },
        Err(e) => {
            let mut text = String::from_str("[Native v1.1.0] Runtime Error:\n");
            let s = e.summary();
            text.append(s.as_str());
            Outcome { status: STATUS_RUNTIME_ERROR, text }
        },
    }
}

/// The status and text that report source that could not be parsed or prepared.
pub fn report_parse_error(message: &str) -> (r: Outcome)
    ensures
        r.status == STATUS_PARSE_ERROR,
        r.text@ == "Parse Error:\n"@ + message@,
{
    let mut text = String::from_str("Parse Error:\n");
    text.append(message);
    Outcome { status: STATUS_PARSE_ERROR, text }
}

/// What static checking found.
#[derive(Debug)]
pub enum CheckResult {
    Clean,
    Issues(String),
    Failed(String),
}

/// The status and text that report static checking.
pub fn report_check(c: &CheckResult) -> (r: Outcome)
    ensures
        match c {
            CheckResult::Clean => r.status == CHECK_CLEAN && r.text@ == "No issues found."@,
            CheckResult::Issues(d) => r.status == CHECK_ISSUES && r.text@ == d@,
            CheckResult::Failed(m) => r.status == CHECK_INTERNAL_ERROR && r.text@
                == "Type Check Internal Error: "@ + m@,
        },
{
    match c {
        CheckResult::Clean => Outcome { status: CHECK_CLEAN, text: String::from_str("No issues found.") },
        CheckResult::Issues(d) => Outcome { status: CHECK_ISSUES, text: d.clone() },
        CheckResult::Failed(m) => {
            let mut text = String::from_str("Type Check Internal Error: ");
            text.append(m.as_str());
            Outcome { status: CHECK_INTERNAL_ERROR, text }
        },
    }
}

/// The bytes written to an output buffer of `capacity` bytes: as much of the
/// text as fits before one byte for the terminating NUL, then the NUL.
pub open spec fn buffer_bytes(text: Seq<u8>, capacity: nat) -> Seq<u8> {
    let n = if text.len() < capacity - 1 {
        text.len()
    } else {
        (capacity - 1) as nat
    };
    text.subrange(0, n as int).push(0u8)
}

/// The bytes to write to an output buffer; the buffer needs room for the NUL.
pub fn fill_buffer(text: &str, capacity: usize) -> (r: Vec<u8>)
    requires
        capacity >= 1,
    ensures
        r@ == buffer_bytes(text.spec_bytes(), capacity as nat),
{
    let bytes = text.as_bytes();
    let n = if bytes.len() < capacity - 1 {
        bytes.len()
    } else {
        capacity - 1
    };
    let mut r: Vec<u8> = Vec::new();
    let mut i: usize = 0;
    while i < n
        invariant
            bytes@ == text.spec_bytes(),
            n <= bytes@.len(),
            i <= n,
            r@ == bytes@.subrange(0, i as int),
        decreases n - i,
    {
        r.push(bytes[i]);
        assert(r@ =~= bytes@.subrange(0, i + 1));
        i = i + 1;
    }
    r.push(0u8);
    r
}

} // verus!
