//! The raw argument bag of one invocation, and its resolution into exactly
//! one validated input shape.
//!
//! The command line accepts a machine state in two mutually exclusive
//! shapes: a single file holding a complete initial state, or separate
//! sources for program, public input, and non-determinism. Within the
//! separate-files shape, inline input and an input file are mutually
//! exclusive, and the program source is mandatory. Resolution enforces
//! these rules before any file is touched and never yields a partially
//! populated request.

use vstd::prelude::*;

use crate::error::UsageError;

verus! {

/// The three subcommands of one invocation.
#[derive(Debug, Clone)]
pub enum Command {
    /// Execute a program and print its public output.
    Run(RunArgs),
    /// Prove an execution and persist the claim / proof artifact pair.
    Prove { args: RunArgs, artifacts: ProofArtifacts },
    /// Verify a persisted claim / proof artifact pair.
    Verify(ProofArtifacts),
}

/// The raw arguments required for executing a program: either a complete
/// initial state, or separate files.
#[derive(Debug, Clone)]
pub struct RunArgs {
    /// Path of a file holding a complete, pre-serialized machine state.
    pub initial_state: Option<String>,
    /// The separate sources for program, input, and non-determinism.
    pub separate_files: SeparateFilesRunArgs,
}

/// The separate-files shape of the input surface.
#[derive(Debug, Clone)]
pub struct SeparateFilesRunArgs {
    /// Path of the program source file. Mandatory within this shape.
    pub program: Option<String>,
    /// The public input, when any was given.
    pub public_input: Option<InputArgs>,
    /// Path of a structured non-determinism file.
    pub non_determinism: Option<String>,
}

/// The public-input sub-shape: inline text or a file, mutually exclusive.
#[derive(Debug, Clone)]
pub struct InputArgs {
    /// A comma-separated list of signed integers, given inline.
    pub input: Option<String>,
    /// Path of a file holding such a list.
    pub input_file: Option<String>,
}

/// File-system coordinates of the claim / proof artifact pair.
#[derive(Debug, Clone)]
pub struct ProofArtifacts {
    /// Path of the claim file.
    pub claim: String,
    /// Path of the proof file.
    pub proof: String,
}

impl Default for ProofArtifacts {
    /// The fixed default artifact locations.
    fn default() -> (r: Self)
        ensures
            r.claim@ == "triton.claim"@,
            r.proof@ == "triton.proof"@,
    {
        ProofArtifacts {
            claim: "triton.claim".to_owned(),
            proof: "triton.proof".to_owned(),
        }
    }
}

/// Where the public input comes from within the separate-files shape.
#[derive(Debug, Clone)]
pub enum InputSource {
    /// A comma-separated list given inline on the command line.
    Inline { text: String },
    /// A file holding such a list.
    File { path: String },
    /// No input was given: the public input defaults to the empty sequence.
    Empty,
}

/// The one validated shape an argument bag resolves to.
#[derive(Debug, Clone)]
pub enum InputShape {
    /// A complete machine state, to be read from one file.
    InitialState { path: String },
    /// Separate sources: a mandatory program file, an optional input
    /// source, and an optional non-determinism file.
    SeparateFiles {
        program_path: String,
        input: InputSource,
        non_determinism_path: Option<String>,
    },
}

/// Whether any separate-files argument is present in the bag.
pub open spec fn separate_args_present(sf: SeparateFilesRunArgs) -> bool {
    ||| sf.program is Some
    ||| input_args_present(sf.public_input)
    ||| sf.non_determinism is Some
}

/// Whether any public-input argument is present.
pub open spec fn input_args_present(pi: Option<InputArgs>) -> bool {
    match pi {
        Some(ia) => ia.input is Some || ia.input_file is Some,
        None => false,
    }
}

/// Whether inline input and an input file were both supplied.
pub open spec fn input_conflict(pi: Option<InputArgs>) -> bool {
    match pi {
        Some(ia) => ia.input is Some && ia.input_file is Some,
        None => false,
    }
}

/// The input source denoted by the public-input arguments, assuming no
/// conflict.
pub open spec fn spec_input_source(pi: Option<InputArgs>) -> InputSource {
    match pi {
        Some(ia) => match ia.input {
            Some(text) => InputSource::Inline { text },
            None => match ia.input_file {
                Some(path) => InputSource::File { path },
                None => InputSource::Empty,
            },
        },
        None => InputSource::Empty,
    }
}

/// The resolution of an argument bag: exactly one validated shape, or the
/// usage error that rules the bag out. Conflicts are reported before the
/// missing-program check, mirroring an argument parser that rejects
/// conflicting occurrences outright.
pub open spec fn spec_resolve(args: RunArgs) -> Result<InputShape, UsageError> {
    if args.initial_state is Some && separate_args_present(args.separate_files) {
        Err(UsageError::InitialStateConflict)
    } else if input_conflict(args.separate_files.public_input) {
        Err(UsageError::InputConflict)
    } else {
        match args.initial_state {
            Some(path) => Ok(InputShape::InitialState { path }),
            None => match args.separate_files.program {
                Some(program_path) => Ok(InputShape::SeparateFiles {
                    program_path,
                    input: spec_input_source(args.separate_files.public_input),
                    non_determinism_path: args.separate_files.non_determinism,
                }),
                None => Err(UsageError::MissingProgram),
            },
        }
    }
}

impl InputArgs {
    /// Resolve the public-input sub-shape: inline text and an input file
    /// are mutually exclusive; absence of both defaults to empty input.
    pub fn resolve(self) -> (r: Result<InputSource, UsageError>)
        ensures
            r is Err <==> input_conflict(Some(self)),
            r is Err ==> r->Err_0 is InputConflict,
            r is Ok ==> r->Ok_0 == spec_input_source(Some(self)),
    {
        if self.input.is_some() && self.input_file.is_some() {
            return Err(UsageError::InputConflict);
        }
        match self.input {
            Some(text) => Ok(InputSource::Inline { text }),
            None => match self.input_file {
                Some(path) => Ok(InputSource::File { path }),
                None => Ok(InputSource::Empty),
            },
        }
    }
}

impl RunArgs {
    /// Resolve the raw argument bag into exactly one validated shape, or
    /// fail with the usage error that rules the bag out. No file is
    /// touched: the result only names the files to be read.
    pub fn resolve(self) -> (r: Result<InputShape, UsageError>)
        ensures
            r == spec_resolve(self),
    {
        if self.initial_state.is_some() {
            let sf = &self.separate_files;
            let pi_present = match &sf.public_input {
                Some(ia) => ia.input.is_some() || ia.input_file.is_some(),
                None => false,
            };
            if sf.program.is_some() || pi_present || sf.non_determinism.is_some() {
                return Err(UsageError::InitialStateConflict);
            }
        }
        let conflict = match &self.separate_files.public_input {
            Some(ia) => ia.input.is_some() && ia.input_file.is_some(),
            None => false,
        };
        if conflict {
            return Err(UsageError::InputConflict);
        }
        match self.initial_state {
            Some(path) => Ok(InputShape::InitialState { path }),
            None => {
                let SeparateFilesRunArgs { program, public_input, non_determinism } =
                    self.separate_files;
                match program {
                    Some(program_path) => {
                        let input = match public_input {
                            Some(ia) => match ia.resolve() {
                                Ok(source) => source,
                                Err(e) => {
                                    proof {
                                        assert(false);
                                    }
                                    return Err(e);
                                },
                            },
                            None => InputSource::Empty,
                        };
                        Ok(InputShape::SeparateFiles {
                            program_path,
                            input,
                            non_determinism_path: non_determinism,
                        })
                    },
                    None => Err(UsageError::MissingProgram),
                }
            },
        }
    }
}

/// Combining the initial-state argument with any separate-files argument
/// always fails as a usage error — for running and for proving alike, both
/// of which resolve their arguments through [`spec_resolve`] — before any
/// file is touched.
pub proof fn lemma_initial_state_conflicts(args: RunArgs)
    requires
        args.initial_state is Some,
        separate_args_present(args.separate_files),
    ensures
        spec_resolve(args) == Err::<InputShape, UsageError>(UsageError::InitialStateConflict),
{
}

/// Supplying inline input together with an input file always fails as a
/// usage error; when no initial-state conflict precedes it, the error is
/// the input conflict itself.
pub proof fn lemma_inline_and_file_input_conflict(args: RunArgs)
    requires
        input_conflict(args.separate_files.public_input),
    ensures
        spec_resolve(args) is Err,
        args.initial_state is None ==> spec_resolve(args) == Err::<InputShape, UsageError>(
            UsageError::InputConflict,
        ),
{
}

/// Omitting the program under the separate-files shape always fails as a
/// usage error. The error is `MissingProgram`, a [`UsageError`]: by
/// construction it is distinct from any I/O error, such as a program file
/// that does not exist.
pub proof fn lemma_missing_program_is_usage_error(args: RunArgs)
    requires
        args.initial_state is None,
        args.separate_files.program is None,
        !input_conflict(args.separate_files.public_input),
    ensures
        spec_resolve(args) == Err::<InputShape, UsageError>(UsageError::MissingProgram),
{
}

} // verus!
