//! The boundary to the external VM engine.
//!
//! The virtual machine, trace generation, and the proof system are external
//! collaborators. This module declares the engine types the orchestration
//! layer carries through, names the results of the engine's deterministic
//! entry points, and wraps each call the layer makes. Everything the layer
//! decides on is held as plain values: programs are keyed by their source
//! text, field elements by their canonical values.

use std::collections::HashMap;

use triton_vm::aet::AlgebraicExecutionTrace;
use triton_vm::execution_trace_profiler::ExecutionTraceProfile;
use triton_vm::prelude::BFieldElement;
use triton_vm::prelude::Claim;
use triton_vm::prelude::Digest;
use triton_vm::prelude::NonDeterminism;
use triton_vm::prelude::Program;
use triton_vm::prelude::Proof;
use triton_vm::prelude::PublicInput;
use triton_vm::prelude::Stark;
use triton_vm::prelude::VM;
use triton_vm::prelude::VMState;

use vstd::prelude::*;

use crate::error::CliError;
use crate::field::{all_canonical, canonical};

verus! {

#[verifier::external_type_specification]
#[verifier::external_body]
pub struct ExBFieldElement(BFieldElement);

#[verifier::external_type_specification]
#[verifier::external_body]
pub struct ExProgram(Program);

#[verifier::external_type_specification]
#[verifier::external_body]
pub struct ExAet(AlgebraicExecutionTrace);

#[verifier::external_type_specification]
#[verifier::external_body]
pub struct ExProfile(ExecutionTraceProfile);

#[verifier::external_type_specification]
#[verifier::external_body]
pub struct ExPublicInput(PublicInput);

#[verifier::external_type_specification]
#[verifier::external_body]
pub struct ExNonDeterminism(NonDeterminism);

#[verifier::external_type_specification]
#[verifier::external_body]
pub struct ExClaim(Claim);

#[verifier::external_type_specification]
#[verifier::external_body]
pub struct ExVMState(VMState);

/// Whether the engine's parser accepts a program source text.
pub uninterp spec fn program_parses(code: Seq<char>) -> bool;

/// The canonical hash digest (five field elements) of the program denoted
/// by a source text.
pub uninterp spec fn program_digest_of(code: Seq<char>) -> Seq<u64>;

/// The outcome of executing the program denoted by `code` on the given
/// public input and non-determinism: the public output on graceful
/// termination (instruction `halt`), or nothing on an abnormal one.
pub uninterp spec fn vm_output(
    code: Seq<char>,
    input: Seq<u64>,
    tokens: Seq<u64>,
    digests: Seq<Seq<u64>>,
    ram: Map<u64, u64>,
) -> Option<Seq<u64>>;

/// What a structured non-determinism document denotes: individual tokens,
/// digests, and the initial random-access memory — or nothing when the
/// document is malformed.
pub uninterp spec fn parsed_nondet(text: Seq<char>) -> Option<
    (Seq<u64>, Seq<Seq<u64>>, Map<u64, u64>),
>;

/// What a complete initial-state document denotes: the canonical source
/// text of its program, the public input, and the non-determinism record —
/// or nothing when the document is malformed.
pub uninterp spec fn parsed_initial_state(text: Seq<char>) -> Option<
    (Seq<char>, Seq<u64>, Seq<u64>, Seq<Seq<u64>>, Map<u64, u64>),
>;

/// What a structured claim document denotes: program digest, version,
/// public input, and public output — or nothing when malformed.
pub uninterp spec fn parsed_claim(text: Seq<char>) -> Option<(Seq<u64>, u32, Seq<u64>, Seq<u64>)>;

/// The structured text a claim serializes to.
pub uninterp spec fn claim_json_of(
    digest: Seq<u64>,
    version: u32,
    input: Seq<u64>,
    output: Seq<u64>,
) -> Seq<char>;

/// The engine's verdict on a claim / proof pair, under the fixed default
/// proof-system parameters.
pub uninterp spec fn stark_verdict(
    digest: Seq<u64>,
    version: u32,
    input: Seq<u64>,
    output: Seq<u64>,
    proof: Seq<u64>,
) -> bool;

/// The length of the FRI evaluation domain derived from a padded trace
/// height, under the fixed default proof-system parameters.
pub uninterp spec fn fri_domain_len_of(padded_height: int) -> int;

/// Whether the engine's FRI construction accepts a padded trace height,
/// under the fixed default proof-system parameters.
pub uninterp spec fn fri_len_ok(padded_height: int) -> bool;

/// A program accepted by the engine's parser, keyed by the source text it
/// was parsed from.
pub struct CompiledProgram {
    program: Program,
    code: Ghost<Seq<char>>,
}

impl CompiledProgram {
    /// The source text this program was parsed from.
    pub closed spec fn id(&self) -> Seq<char> {
        self.code@
    }
}

/// The non-determinism record: individual tokens, digests, and initial
/// random-access memory, all as canonical field values. Defaults to
/// all-empty when no source was given.
pub struct NonDetData {
    /// Tokens the program can consume one by one.
    pub tokens: Vec<u64>,
    /// Digests the program can walk, five elements each.
    pub digests: Vec<[u64; 5]>,
    /// The initial random-access memory, as address / value pairs with
    /// pairwise distinct addresses.
    pub ram: Vec<(u64, u64)>,
}

/// The map denoted by a sequence of address / value pairs.
pub open spec fn pairs_to_map(s: Seq<(u64, u64)>) -> Map<u64, u64>
    decreases s.len(),
{
    if s.len() == 0 {
        Map::empty()
    } else {
        pairs_to_map(s.drop_last()).insert(s.last().0, s.last().1)
    }
}

impl NonDetData {
    /// Well-formed: canonical values throughout, distinct RAM addresses.
    pub open spec fn wf(self) -> bool {
        &&& all_canonical(self.tokens@)
        &&& forall|i: int|
            0 <= i < self.digests@.len() ==> all_canonical(#[trigger] self.digests.deep_view()[i])
        &&& forall|i: int|
            0 <= i < self.ram@.len() ==> canonical(#[trigger] self.ram@[i].0) && canonical(
                self.ram@[i].1,
            )
        &&& forall|i: int, j: int|
            0 <= i < j < self.ram@.len() ==> (#[trigger] self.ram@[i]).0 != (
            #[trigger] self.ram@[j]).0
    }

    /// The plain model of the record.
    pub open spec fn model(self) -> (Seq<u64>, Seq<Seq<u64>>, Map<u64, u64>) {
        (self.tokens@, self.digests.deep_view(), pairs_to_map(self.ram@))
    }

    /// The all-empty record, used when no non-determinism was given.
    pub fn empty() -> (r: NonDetData)
        ensures
            r.wf(),
            r.model() == (Seq::<u64>::empty(), Seq::<Seq<u64>>::empty(), Map::<u64, u64>::empty()),
    {
        let r = NonDetData { tokens: Vec::new(), digests: Vec::new(), ram: Vec::new() };
        proof {
            assert(r.digests.deep_view() =~= Seq::<Seq<u64>>::empty());
        }
        r
    }
}

/// The public statement of one proved execution: program digest, proof
/// system version, public input, and public output, all as plain values.
#[derive(Debug)]
pub struct ClaimData {
    /// The program's canonical hash digest: five field elements.
    pub program_digest: Vec<u64>,
    /// The version of the instruction set and proof system.
    pub version: u32,
    /// The public input of the execution.
    pub input: Vec<u64>,
    /// The public output of the execution.
    pub output: Vec<u64>,
}

impl ClaimData {
    /// Well-formed: a five-element digest, canonical values throughout.
    pub open spec fn wf(self) -> bool {
        &&& self.program_digest@.len() == 5
        &&& all_canonical(self.program_digest@)
        &&& all_canonical(self.input@)
        &&& all_canonical(self.output@)
    }

    /// The plain model of the claim.
    pub open spec fn model(self) -> (Seq<u64>, u32, Seq<u64>, Seq<u64>) {
        (self.program_digest@, self.version, self.input@, self.output@)
    }
}

/// An algebraic execution trace, keyed by the claim data it witnesses:
/// the digest of the traced program, the public input it consumed, and
/// the public output it produced.
pub struct Trace {
    aet: AlgebraicExecutionTrace,
    claim_tie: Ghost<(Seq<u64>, Seq<u64>, Seq<u64>)>,
}

impl Trace {
    /// The digest, input, and output this trace witnesses.
    pub closed spec fn tie(&self) -> (Seq<u64>, Seq<u64>, Seq<u64>) {
        self.claim_tie@
    }
}

/// Relies on `Program::from_code` of the engine's instruction set
/// architecture: parsing a source text is a pure function of the text.
#[verifier::external_body]
fn program_from_code(code: &str) -> (r: Result<Program, String>)
    ensures
        r is Ok <==> program_parses(code@),
{
    Program::from_code(code).map_err(|e| e.to_string())
}

/// Parse a program source text through the engine's parser.
pub fn compile_program(code: &str) -> (r: Result<CompiledProgram, CliError>)
    ensures
        r is Ok <==> program_parses(code@),
        r is Ok ==> r->Ok_0.id() == code@,
        r is Err ==> r->Err_0 is Parse,
{
    match program_from_code(code) {
        Ok(program) => Ok(CompiledProgram { program, code: Ghost(code@) }),
        Err(message) => Err(CliError::Parse { message }),
    }
}

/// Relies on `Program::hash`: the canonical digest is a pure function of
/// the program, hence of the source text it was parsed from, and consists
/// of five field elements.
#[verifier::external_body]
pub fn program_digest(p: &CompiledProgram) -> (r: Vec<u64>)
    ensures
        r@ == program_digest_of(p.id()),
        r@.len() == 5,
        all_canonical(r@),
{
    p.program.hash().values().iter().map(|b| b.value()).collect()
}

/// Relies on `PublicInput::new` and `BFieldElement::new`: wraps canonical
/// values one for one into the engine's input type.
#[verifier::external_body]
fn to_public_input(values: &Vec<u64>) -> PublicInput
    requires
        all_canonical(values@),
{
    PublicInput::new(values.iter().map(|&v| BFieldElement::new(v)).collect())
}

/// Relies on `NonDeterminism::new`, `with_digests`, and `with_ram`: moves
/// the record's fields one for one into the engine's type.
#[verifier::external_body]
fn to_non_determinism(nd: &NonDetData) -> NonDeterminism
    requires
        nd.wf(),
{
    let tokens: Vec<_> = nd.tokens.iter().map(|&v| BFieldElement::new(v)).collect();
    let digests: Vec<_> = nd.digests.iter().map(|d| Digest(d.map(BFieldElement::new))).collect();
    let ram: HashMap<_, _> = nd
        .ram
        .iter()
        .map(|&(k, v)| (BFieldElement::new(k), BFieldElement::new(v)))
        .collect();
    NonDeterminism::new(tokens).with_digests(digests).with_ram(ram)
}

/// Relies on `Claim`'s public fields and `BFieldElement::new`: moves the
/// claim data one for one into the engine's claim type.
#[verifier::external_body]
fn to_claim(c: &ClaimData) -> Claim
    requires
        c.wf(),
{
    let digest: [u64; 5] = c.program_digest.clone().try_into().unwrap();
    Claim {
        program_digest: Digest(digest.map(BFieldElement::new)),
        version: c.version,
        input: c.input.iter().map(|&v| BFieldElement::new(v)).collect(),
        output: c.output.iter().map(|&v| BFieldElement::new(v)).collect(),
    }
}

/// Relies on `VM::run`: execution is a pure function of program, public
/// input, and non-determinism; on graceful termination it returns the
/// public output, a list of canonical field elements.
#[verifier::external_body]
pub fn vm_run(p: &CompiledProgram, input: &Vec<u64>, nd: &NonDetData) -> (r: Result<
    Vec<u64>,
    String,
>)
    requires
        all_canonical(input@),
        nd.wf(),
    ensures
        r is Ok <==> vm_output(p.id(), input@, nd.model().0, nd.model().1, nd.model().2) is Some,
        r is Ok ==> r->Ok_0@ == vm_output(
            p.id(),
            input@,
            nd.model().0,
            nd.model().1,
            nd.model().2,
        )->Some_0,
        r is Ok ==> all_canonical(r->Ok_0@),
{
    match VM::run(p.program.clone(), to_public_input(input), to_non_determinism(nd)) {
        Ok(out) => Ok(out.into_iter().map(|b| b.value()).collect()),
        Err(e) => Err(e.to_string()),
    }
}

/// Relies on `VM::trace_execution`: it steps the same deterministic state
/// machine as `VM::run` and returns the same public output alongside the
/// algebraic execution trace of the run.
#[verifier::external_body]
fn vm_trace_execution(p: &CompiledProgram, input: &Vec<u64>, nd: &NonDetData) -> (r: Result<
    (AlgebraicExecutionTrace, Vec<u64>),
    String,
>)
    requires
        all_canonical(input@),
        nd.wf(),
    ensures
        r is Ok <==> vm_output(p.id(), input@, nd.model().0, nd.model().1, nd.model().2) is Some,
        r is Ok ==> r->Ok_0.1@ == vm_output(
            p.id(),
            input@,
            nd.model().0,
            nd.model().1,
            nd.model().2,
        )->Some_0,
        r is Ok ==> all_canonical(r->Ok_0.1@),
{
    match VM::trace_execution(p.program.clone(), to_public_input(input), to_non_determinism(nd)) {
        Ok((aet, out)) => Ok((aet, out.into_iter().map(|b| b.value()).collect())),
        Err(e) => Err(e.to_string()),
    }
}

/// Trace an execution, keying the trace by the digest of the program, the
/// public input it consumed, and the public output it produced.
pub fn trace_execution(p: &CompiledProgram, input: &Vec<u64>, nd: &NonDetData) -> (r: Result<
    (Trace, Vec<u64>),
    String,
>)
    requires
        all_canonical(input@),
        nd.wf(),
    ensures
        r is Ok <==> vm_output(p.id(), input@, nd.model().0, nd.model().1, nd.model().2) is Some,
        r is Ok ==> r->Ok_0.1@ == vm_output(
            p.id(),
            input@,
            nd.model().0,
            nd.model().1,
            nd.model().2,
        )->Some_0,
        r is Ok ==> all_canonical(r->Ok_0.1@),
        r is Ok ==> r->Ok_0.0.tie() == (program_digest_of(p.id()), input@, r->Ok_0.1@),
{
    match vm_trace_execution(p, input, nd) {
        Ok((aet, out)) => {
            let trace = Trace {
                aet,
                claim_tie: Ghost((program_digest_of(p.id()), input@, out@)),
            };
            Ok((trace, out))
        },
        Err(e) => Err(e),
    }
}

/// Relies on `VM::profile`: it runs the same deterministic state machine
/// as `VM::run`, returning the same public output together with a profile
/// of the execution.
#[verifier::external_body]
pub fn vm_profile(p: &CompiledProgram, input: &Vec<u64>, nd: &NonDetData) -> (r: Result<
    (Vec<u64>, ExecutionTraceProfile),
    String,
>)
    requires
        all_canonical(input@),
        nd.wf(),
    ensures
        r is Ok <==> vm_output(p.id(), input@, nd.model().0, nd.model().1, nd.model().2) is Some,
        r is Ok ==> r->Ok_0.0@ == vm_output(
            p.id(),
            input@,
            nd.model().0,
            nd.model().1,
            nd.model().2,
        )->Some_0,
        r is Ok ==> all_canonical(r->Ok_0.0@),
{
    match VM::profile(p.program.clone(), to_public_input(input), to_non_determinism(nd)) {
        Ok((out, profile)) => Ok((out.into_iter().map(|b| b.value()).collect(), profile)),
        Err(e) => Err(e.to_string()),
    }
}

/// Relies on the `Display` rendering of the engine's execution profile.
/// Nothing is claimed of the text.
#[verifier::external_body]
pub fn profile_display(profile: &ExecutionTraceProfile) -> String {
    profile.to_string()
}

/// Relies on `Stark::prove` under the fixed default parameters. Proving
/// uses fresh randomness, so nothing ties two proofs of one claim to each
/// other; but the proof system is perfectly complete: a proof produced
/// for a claim whose digest, input, and output match the honestly traced
/// execution passes verification. A proof is a list of canonical field
/// elements.
#[verifier::external_body]
pub fn stark_prove(claim: &ClaimData, trace: &Trace) -> (r: Result<Vec<u64>, String>)
    requires
        claim.wf(),
        trace.tie() == (claim.program_digest@, claim.input@, claim.output@),
    ensures
        r is Ok ==> all_canonical(r->Ok_0@),
        r is Ok ==> stark_verdict(
            claim.program_digest@,
            claim.version,
            claim.input@,
            claim.output@,
            r->Ok_0@,
        ),
{
    match Stark::default().prove(&to_claim(claim), &trace.aet) {
        Ok(proof) => Ok(proof.0.into_iter().map(|b| b.value()).collect()),
        Err(e) => Err(e.to_string()),
    }
}

/// Relies on `triton_vm::verify` under the fixed default parameters: the
/// verdict is a pure function of claim and proof.
#[verifier::external_body]
pub fn stark_verify(claim: &ClaimData, proof: &Vec<u64>) -> (r: bool)
    requires
        claim.wf(),
        all_canonical(proof@),
    ensures
        r == stark_verdict(
            claim.program_digest@,
            claim.version,
            claim.input@,
            claim.output@,
            proof@,
        ),
{
    let proof = Proof(proof.iter().map(|&v| BFieldElement::new(v)).collect());
    triton_vm::verify(Stark::default(), &to_claim(claim), &proof)
}

/// Relies on `serde_json::from_str` for the engine's non-determinism
/// type: what a document denotes is a pure function of its text. The
/// random-access memory is handed out as address / value pairs; their
/// order is not a function of the document, so only the denoted map is
/// stated.
#[verifier::external_body]
pub fn nondet_from_json(text: &str) -> (r: Result<NonDetData, String>)
    ensures
        r is Ok <==> parsed_nondet(text@) is Some,
        r is Ok ==> {
            let m = parsed_nondet(text@)->Some_0;
            &&& r->Ok_0.wf()
            &&& r->Ok_0.model() == m
        },
{
    let nd: NonDeterminism = serde_json::from_str(text).map_err(|e| e.to_string())?;
    Ok(NonDetData {
        tokens: nd.individual_tokens.iter().map(|b| b.value()).collect(),
        digests: nd.digests.iter().map(|d| d.values().map(|b| b.value())).collect(),
        ram: nd.ram.iter().map(|(k, v)| (k.value(), v.value())).collect(),
    })
}

/// Relies on `serde_json::from_str` for the engine's machine-state type,
/// on the engine's `Display` rendering of programs, and on
/// `Program::from_code`. A document is accepted exactly when serde
/// accepts it *and* the canonical text of its program re-parses: the
/// body checks the re-parse, since a hand-written document controls the
/// program's label map and can make its printed text unparseable. What
/// an accepted document denotes is a pure function of its text; the
/// random-access memory is stated as the denoted map, as its pair order
/// is not a function of the document.
#[verifier::external_body]
pub fn initial_state_parts(text: &str) -> (r: Result<(String, Vec<u64>, NonDetData), String>)
    ensures
        r is Ok <==> parsed_initial_state(text@) is Some,
        r is Ok ==> {
            let m = parsed_initial_state(text@)->Some_0;
            &&& r->Ok_0.0@ == m.0
            &&& program_parses(m.0)
            &&& r->Ok_0.1@ == m.1
            &&& all_canonical(m.1)
            &&& r->Ok_0.2.wf()
            &&& r->Ok_0.2.model() == (m.2, m.3, m.4)
        },
{
    let state: VMState = serde_json::from_str(text).map_err(|e| e.to_string())?;
    let code = state.program.to_string();
    Program::from_code(&code).map_err(|e| e.to_string())?;
    let input = state.public_input.iter().map(|b| b.value()).collect();
    Ok((code, input, state_non_determinism(&state)))
}

/// Relies on `VMState`'s public fields: moves the state's secret tokens,
/// digests, and random-access memory one for one into the record, as
/// canonical values.
#[verifier::external_body]
fn state_non_determinism(state: &VMState) -> NonDetData {
    NonDetData {
        tokens: state.secret_individual_tokens.iter().map(|b| b.value()).collect(),
        digests: state.secret_digests.iter().map(|d| d.values().map(|b| b.value())).collect(),
        ram: state.ram.iter().map(|(k, v)| (k.value(), v.value())).collect(),
    }
}

/// Relies on `serde_json::to_string` for the engine's claim type: the
/// serialization of a claim is a pure function of its fields, and parsing
/// the produced document yields the same claim back (the round trip of a
/// derived serde codec on a plain struct).
#[verifier::external_body]
pub fn claim_to_json(c: &ClaimData) -> (r: String)
    requires
        c.wf(),
    ensures
        r@ == claim_json_of(c.program_digest@, c.version, c.input@, c.output@),
        parsed_claim(r@) == Some((c.program_digest@, c.version, c.input@, c.output@)),
{
    serde_json::to_string(&to_claim(c)).unwrap()
}

/// Relies on `serde_json::from_str` for the engine's claim type: what a
/// document denotes is a pure function of its text, and every field value
/// of a parsed claim is canonical.
#[verifier::external_body]
pub fn claim_from_json(text: &str) -> (r: Result<ClaimData, String>)
    ensures
        r is Ok <==> parsed_claim(text@) is Some,
        r is Ok ==> {
            let m = parsed_claim(text@)->Some_0;
            &&& r->Ok_0.wf()
            &&& r->Ok_0.model() == m
        },
{
    let claim: Claim = serde_json::from_str(text).map_err(|e| e.to_string())?;
    Ok(ClaimData {
        program_digest: claim.program_digest.values().iter().map(|b| b.value()).collect(),
        version: claim.version,
        input: claim.input.iter().map(|b| b.value()).collect(),
        output: claim.output.iter().map(|b| b.value()).collect(),
    })
}

/// Relies on the engine's claim version constant: the version of the
/// instruction set architecture and proof system that new claims are
/// stated about.
#[verifier::external_body]
pub fn current_version() -> (r: u32)
    ensures
        r == 8,
{
    triton_vm::proof::CURRENT_VERSION
}

/// Relies on `Stark::fri` under the fixed default parameters: both the
/// domain length and whether the construction accepts a padded height
/// are pure functions of that height, so equal heights give equal
/// results. The bound keeps the call clear of arithmetic overflow and
/// inside the domain the engine's verifier accepts.
#[verifier::external_body]
pub fn fri_domain_length(padded_height: u64) -> (r: Result<usize, String>)
    requires
        padded_height <= 0x2000_0000,
    ensures
        r is Ok <==> fri_len_ok(padded_height as int),
        r is Ok ==> r->Ok_0 == fri_domain_len_of(padded_height as int),
{
    match Stark::default().fri(padded_height as usize) {
        Ok(fri) => Ok(fri.domain.len()),
        Err(e) => Err(e.to_string()),
    }
}

/// Relies on `TableId::iter`, its `Display` labels, and
/// `AlgebraicExecutionTrace::height_of_table`: hands out the height of
/// every table of the trace, labelled, in the engine's fixed table order.
#[verifier::external_body]
pub fn table_heights(trace: &Trace) -> (r: Vec<(String, u64)>)
    ensures
        r@.len() >= 1,
{
    <triton_vm::prelude::TableId as strum::IntoEnumIterator>::iter()
        .map(|id| (id.to_string(), trace.aet.height_of_table(id) as u64))
        .collect()
}

/// Relies on the processor trace of the algebraic execution trace: its
/// row count is the cycle count of the execution. Nothing further is
/// claimed of the value.
#[verifier::external_body]
pub fn trace_cycles(trace: &Trace) -> usize {
    trace.aet.processor_trace.nrows()
}


} // verus!
