//! The error taxonomy of the command-line layer.
//!
//! Every failure of an invocation is terminal and falls into exactly one of
//! these categories. A negative verification verdict is *not* an error: it
//! is reported through the verifying function's boolean result.

use vstd::prelude::*;
use vstd::string::StringExecFns;

verus! {

/// Conflicting or missing required arguments, detected before any file is
/// touched.
#[derive(Debug, Clone, Copy, PartialEq, Eq, Structural)]
pub enum UsageError {
    /// The initial-state argument was combined with one of the
    /// separate-files arguments.
    InitialStateConflict,
    /// Inline input and an input file were both supplied.
    InputConflict,
    /// Neither an initial state nor a program was supplied.
    MissingProgram,
}

/// The logical input a file-system operation was performed for. An I/O
/// failure is always tagged with the argument it came from.
#[derive(Debug, Clone, Copy, PartialEq, Eq, Structural)]
pub enum FileRole {
    Program,
    InputFile,
    NonDeterminism,
    InitialState,
    Claim,
    Proof,
}

/// A terminal failure of one invocation.
#[derive(Debug)]
pub enum CliError {
    /// Conflicting or missing arguments.
    Usage(UsageError),
    /// A file was missing, unreadable, or unwritable.
    Io { role: FileRole, message: String },
    /// Program text or a numeric input token failed to parse.
    Parse { message: String },
    /// An input value lies outside the representable signed domain.
    Range { message: String },
    /// A malformed artifact or structured input file.
    Deserialization { message: String },
    /// The program executed but terminated abnormally, or proof generation
    /// was rejected.
    EngineFault { message: String },
}

impl UsageError {
    /// The fixed diagnostic for this usage error.
    pub fn message(&self) -> (r: String)
        ensures
            self is InitialStateConflict ==> r@ == "the argument '--initial-state' cannot be used with '--program', '--input', '--input-file', or '--non-determinism'"@,
            self is InputConflict ==> r@ == "the argument '--input' cannot be used with '--input-file'"@,
            self is MissingProgram ==> r@ == "either argument 'initial state' or 'program' must be supplied"@,
    {
        match self {
            UsageError::InitialStateConflict => String::from_str(
                "the argument '--initial-state' cannot be used with '--program', '--input', '--input-file', or '--non-determinism'",
            ),
            UsageError::InputConflict => String::from_str(
                "the argument '--input' cannot be used with '--input-file'",
            ),
            UsageError::MissingProgram => String::from_str(
                "either argument 'initial state' or 'program' must be supplied",
            ),
        }
    }
}

impl FileRole {
    /// The argument name this role corresponds to.
    pub fn label(&self) -> (r: String)
        ensures
            self is Program ==> r@ == "program"@,
            self is InputFile ==> r@ == "input-file"@,
            self is NonDeterminism ==> r@ == "non-determinism"@,
            self is InitialState ==> r@ == "initial-state"@,
            self is Claim ==> r@ == "claim"@,
            self is Proof ==> r@ == "proof"@,
    {
        match self {
            FileRole::Program => String::from_str("program"),
            FileRole::InputFile => String::from_str("input-file"),
            FileRole::NonDeterminism => String::from_str("non-determinism"),
            FileRole::InitialState => String::from_str("initial-state"),
            FileRole::Claim => String::from_str("claim"),
            FileRole::Proof => String::from_str("proof"),
        }
    }
}

impl CliError {
    /// A human-readable description: the category, and for tagged
    /// categories the argument or underlying diagnostic.
    pub fn message(&self) -> (r: String) {
        match self {
            CliError::Usage(u) => u.message(),
            CliError::Io { role, message } => {
                let mut s = String::from_str("i/o error for argument '");
                s.append(role.label().as_str());
                s.append("': ");
                s.append(message.as_str());
                s
            },
            CliError::Parse { message } => {
                let mut s = String::from_str("parse error: ");
                s.append(message.as_str());
                s
            },
            CliError::Range { message } => {
                let mut s = String::from_str("input value out of range: ");
                s.append(message.as_str());
                s
            },
            CliError::Deserialization { message } => {
                let mut s = String::from_str("deserialization error: ");
                s.append(message.as_str());
                s
            },
            CliError::EngineFault { message } => {
                let mut s = String::from_str("execution error: ");
                s.append(message.as_str());
                s
            },
        }
    }
}

} // verus!
