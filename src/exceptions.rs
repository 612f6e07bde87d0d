use vstd::prelude::*;

verus! {

/// The closed set of exception kinds, mirroring the host language's hierarchy.
#[derive(Debug, Clone, Copy, PartialEq, Eq, Structural)]
pub enum ExcType {
    Exception,
    BaseException,
    SystemExit,
    KeyboardInterrupt,
    ArithmeticError,
    OverflowError,
    ZeroDivisionError,
    LookupError,
    IndexError,
    KeyError,
    RuntimeError,
    NotImplementedError,
    RecursionError,
    AssertionError,
    AttributeError,
    MemoryError,
    NameError,
    SyntaxError,
    TimeoutError,
    TypeError,
    ValueError,
}

/// The name under which a kind is shown.
pub open spec fn exc_type_name(t: ExcType) -> Seq<char> {
    match t {
        ExcType::Exception => "Exception"@,
        ExcType::BaseException => "BaseException"@,
        ExcType::SystemExit => "SystemExit"@,
        ExcType::KeyboardInterrupt => "KeyboardInterrupt"@,
        ExcType::ArithmeticError => "ArithmeticError"@,
        ExcType::OverflowError => "OverflowError"@,
        ExcType::ZeroDivisionError => "ZeroDivisionError"@,
        ExcType::LookupError => "LookupError"@,
        ExcType::IndexError => "IndexError"@,
        ExcType::KeyError => "KeyError"@,
        ExcType::RuntimeError => "RuntimeError"@,
        ExcType::NotImplementedError => "NotImplementedError"@,
        ExcType::RecursionError => "RecursionError"@,
        ExcType::AssertionError => "AssertionError"@,
        ExcType::AttributeError => "AttributeError"@,
        ExcType::MemoryError => "MemoryError"@,
        ExcType::NameError => "NameError"@,
        ExcType::SyntaxError => "SyntaxError"@,
        ExcType::TimeoutError => "TimeoutError"@,
        ExcType::TypeError => "TypeError"@,
        ExcType::ValueError => "ValueError"@,
    }
}

impl ExcType {
    /// The kind's name, as the host language spells its exception class.
    pub fn name(&self) -> (r: &'static str)
        ensures
            r@ == exc_type_name(*self),
    {
        match self {
            ExcType::Exception => "Exception",
            ExcType::BaseException => "BaseException",
            ExcType::SystemExit => "SystemExit",
            ExcType::KeyboardInterrupt => "KeyboardInterrupt",
            ExcType::ArithmeticError => "ArithmeticError",
            ExcType::OverflowError => "OverflowError",
            ExcType::ZeroDivisionError => "ZeroDivisionError",
            ExcType::LookupError => "LookupError",
            ExcType::IndexError => "IndexError",
            ExcType::KeyError => "KeyError",
            ExcType::RuntimeError => "RuntimeError",
            ExcType::NotImplementedError => "NotImplementedError",
            ExcType::RecursionError => "RecursionError",
            ExcType::AssertionError => "AssertionError",
            ExcType::AttributeError => "AttributeError",
            ExcType::MemoryError => "MemoryError",
            ExcType::NameError => "NameError",
            ExcType::SyntaxError => "SyntaxError",
            ExcType::TimeoutError => "TimeoutError",
            ExcType::TypeError => "TypeError",
            ExcType::ValueError => "ValueError",
        }
    }
}

/// An exception raised by a script: its kind and an optional message.
#[derive(Debug, Clone, PartialEq)]
pub struct MontyException {
    pub exc_type: ExcType,
    pub message: Option<String>,
}

/// The text shown for an exception: `Kind: message`, or the bare kind name.
pub open spec fn exc_summary(t: ExcType, message: Option<Seq<char>>) -> Seq<char> {
    match message {
        Some(m) => exc_type_name(t) + ": "@ + m,
        None => exc_type_name(t),
    }
}

/// The view of an optional owned string.
pub open spec fn opt_text(s: Option<String>) -> Option<Seq<char>> {
    match s {
        Some(m) => Some(m@),
        None => None,
    }
}

impl MontyException {
    pub fn new(exc_type: ExcType, message: Option<String>) -> (r: MontyException)
        ensures
            r.exc_type == exc_type,
            r.message == message,
    {
        MontyException { exc_type, message }
    }

    /// An exception whose message is the given text.
    pub fn with_message(exc_type: ExcType, message: &str) -> (r: MontyException)
        ensures
            r.exc_type == exc_type,
            opt_text(r.message) == Some(message@),
    {
        MontyException { exc_type, message: Some(String::from_str(message)) }
    }

    pub fn exc_type(&self) -> (r: ExcType)
        ensures
            r == self.exc_type,
    {
        self.exc_type
    }

    pub fn into_message(self) -> (r: Option<String>)
        ensures
            r == self.message,
    {
        self.message
    }

    /// Renders the exception as `Kind: message`, or as the kind alone.
    pub fn summary(&self) -> (r: String)
        ensures
            r@ == exc_summary(self.exc_type, opt_text(self.message)),
    {
        let mut r = String::from_str(self.exc_type.name());
        match &self.message {
            Some(m) => {
                r.append(": ");
                r.append(m.as_str());
            },
            None => {},
        }
        r
    }
}

/// Why an execution stopped early.
#[derive(Debug, Clone, PartialEq)]
pub enum RunError {
    /// An exception raised by the script, visible to it and to the host.
    Exc(MontyException),
    /// A construct the engine does not implement: a limit of the engine, not a fault of the script.
    Internal(String),
}

/// The prefix that sets an engine limitation apart from a script's exception.
pub open spec fn internal_prefix() -> Seq<char> {
    "Internal error (not implemented): "@
}

impl RunError {
    /// A script exception with the given kind and message.
    pub fn exc(exc_type: ExcType, message: &str) -> (r: RunError)
        ensures
            r matches RunError::Exc(e) && e.exc_type == exc_type && opt_text(e.message) == Some(
                message@,
            ),
    {
        RunError::Exc(MontyException::with_message(exc_type, message))
    }

    /// Renders the error; an engine limitation carries a prefix of its own.
    pub fn summary(&self) -> (r: String)
        ensures
            match self {
                RunError::Exc(e) => r@ == exc_summary(e.exc_type, opt_text(e.message)),
                RunError::Internal(m) => r@ == internal_prefix() + m@,
            },
    {
        match self {
            RunError::Exc(e) => e.summary(),
            RunError::Internal(m) => {
                let mut r = String::from_str("Internal error (not implemented): ");
                r.append(m.as_str());
                r
            },
        }
    }
}

/// What an error is, as contracts compare it: a script exception's kind and
/// message, or an engine limitation's message.
pub enum Fault {
    Exc(ExcType, Option<Seq<char>>),
    Internal(Seq<char>),
}

pub open spec fn fault_of(e: RunError) -> Fault {
    match e {
        RunError::Exc(x) => Fault::Exc(x.exc_type, opt_text(x.message)),
        RunError::Internal(m) => Fault::Internal(m@),
    }
}

/// A result with its error seen as a `Fault`.
pub open spec fn outcome<T>(r: Result<T, RunError>) -> Result<T, Fault> {
    match r {
        Ok(v) => Ok(v),
        Err(e) => Err(fault_of(e)),
    }
}

} // verus!
