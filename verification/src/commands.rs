//! The three operations of one invocation: run, prove, and verify.
//!
//! Each operation consumes the canonical execution request (or the loaded
//! artifact pair) and composes the input resolver, the artifact codec, and
//! the external VM engine. All errors are terminal for the invocation; a
//! negative verification verdict is not an error but a boolean result.

use vstd::prelude::*;
use vstd::utf8::encode_utf8;

use crate::codec::{
    decode_proof, encode_proof, lemma_proof_codec_round_trip, proof_decoding, proof_decoding_ok,
    proof_encoding,
};
use crate::engine::{
    claim_json_of, claim_to_json, claim_from_json, compile_program, current_version,
    initial_state_parts, nondet_from_json, parsed_claim, parsed_initial_state, parsed_nondet,
    program_digest, program_digest_of, program_parses, stark_prove, stark_verdict, stark_verify,
    trace_execution, vm_output, vm_run, ClaimData, CompiledProgram, NonDetData,
};
use crate::error::CliError;
use crate::field::all_canonical;
use crate::input::{input_values, parse_public_input, tokens_ok};
use crate::render::{joined_line, render_output_line};

verus! {

/// The file contents an invocation resolved to: either one complete
/// initial-state document, or the separate sources, already read.
pub enum ResolvedInput {
    /// The text of a complete initial-state document.
    InitialState { text: String },
    /// The separate sources: mandatory program text, optional input list
    /// text, optional non-determinism document text.
    SeparateFiles {
        program_code: String,
        input_text: Option<String>,
        non_determinism_text: Option<String>,
    },
}

/// The canonical execution request: program, public input, and
/// non-determinism, fully specified, with no partial state.
pub struct ExecutionRequest {
    /// The program, accepted by the engine's parser.
    pub program: CompiledProgram,
    /// The public input, as canonical field values.
    pub public_input: Vec<u64>,
    /// The non-determinism record.
    pub non_determinism: NonDetData,
}

impl ExecutionRequest {
    /// Well-formed: canonical values throughout.
    pub open spec fn wf(self) -> bool {
        &&& all_canonical(self.public_input@)
        &&& self.non_determinism.wf()
    }

    /// The engine's outcome on this request: the public output on
    /// graceful termination, nothing on an abnormal one.
    pub open spec fn output(self) -> Option<Seq<u64>> {
        vm_output(
            self.program.id(),
            self.public_input@,
            self.non_determinism.model().0,
            self.non_determinism.model().1,
            self.non_determinism.model().2,
        )
    }
}

/// Whether an optional inline-or-file input text is a well-formed input
/// list; absence defaults to the empty list.
pub open spec fn opt_input_ok(t: Option<String>) -> bool {
    match t {
        Some(s) => tokens_ok(encode_utf8(s@)),
        None => true,
    }
}

/// The input values an optional input text denotes.
pub open spec fn opt_input_values(t: Option<String>) -> Seq<u64> {
    match t {
        Some(s) => input_values(encode_utf8(s@)),
        None => Seq::empty(),
    }
}

/// Whether an optional non-determinism document is well formed; absence
/// defaults to the all-empty record.
pub open spec fn opt_nondet_ok(t: Option<String>) -> bool {
    match t {
        Some(s) => parsed_nondet(s@) is Some,
        None => true,
    }
}

/// The non-determinism model an optional document denotes.
pub open spec fn opt_nondet_model(t: Option<String>) -> (Seq<u64>, Seq<Seq<u64>>, Map<u64, u64>) {
    match t {
        Some(s) => parsed_nondet(s@)->Some_0,
        None => (Seq::empty(), Seq::empty(), Map::empty()),
    }
}

/// Build the canonical execution request from the resolved file contents.
///
/// Exactly one of two construction paths produces it: a complete
/// initial-state document, or program text plus optional input and
/// non-determinism. A malformed program is a parse error; a malformed
/// input list is a parse or range error; a malformed structured document
/// is a deserialization error. No partially populated request exists.
pub fn build_request(src: ResolvedInput) -> (r: Result<ExecutionRequest, CliError>)
    ensures
        src matches ResolvedInput::InitialState { text } ==> {
            &&& r is Ok <==> parsed_initial_state(text@) is Some
            &&& r is Err ==> r->Err_0 is Deserialization
            &&& r is Ok ==> {
                let m = parsed_initial_state(text@)->Some_0;
                &&& r->Ok_0.wf()
                &&& r->Ok_0.program.id() == m.0
                &&& r->Ok_0.public_input@ == m.1
                &&& r->Ok_0.non_determinism.model() == (m.2, m.3, m.4)
            }
        },
        src matches ResolvedInput::SeparateFiles {
            program_code,
            input_text,
            non_determinism_text,
        } ==> {
            &&& r is Ok <==> program_parses(program_code@) && opt_input_ok(input_text)
                && opt_nondet_ok(non_determinism_text)
            &&& !program_parses(program_code@) ==> r is Err && r->Err_0 is Parse
            &&& program_parses(program_code@) && !opt_input_ok(input_text) ==> r is Err && (
            r->Err_0 is Parse || r->Err_0 is Range)
            &&& program_parses(program_code@) && opt_input_ok(input_text) && !opt_nondet_ok(
                non_determinism_text,
            ) ==> r is Err && r->Err_0 is Deserialization
            &&& r is Ok ==> {
                &&& r->Ok_0.wf()
                &&& r->Ok_0.program.id() == program_code@
                &&& r->Ok_0.public_input@ == opt_input_values(input_text)
                &&& r->Ok_0.non_determinism.model() == opt_nondet_model(non_determinism_text)
            }
        },
{
    match src {
        ResolvedInput::InitialState { text } => {
            match initial_state_parts(text.as_str()) {
                Ok((code, public_input, non_determinism)) => {
                    match compile_program(code.as_str()) {
                        Ok(program) => Ok(
                            ExecutionRequest { program, public_input, non_determinism },
                        ),
                        Err(_) => {
                            proof {
                                assert(false);
                            }
                            Err(
                                CliError::Deserialization {
                                    message: String::new(),
                                },
                            )
                        },
                    }
                },
                Err(message) => Err(CliError::Deserialization { message }),
            }
        },
        ResolvedInput::SeparateFiles { program_code, input_text, non_determinism_text } => {
            let program = match compile_program(program_code.as_str()) {
                Ok(p) => p,
                Err(e) => {
                    return Err(e);
                },
            };
            let public_input = match &input_text {
                Some(text) => match parse_public_input(text.as_str()) {
                    Ok(values) => values,
                    Err(e) => {
                        return Err(e);
                    },
                },
                None => Vec::new(),
            };
            let non_determinism = match &non_determinism_text {
                Some(text) => match nondet_from_json(text.as_str()) {
                    Ok(nd) => nd,
                    Err(message) => {
                        return Err(CliError::Deserialization { message });
                    },
                },
                None => NonDetData::empty(),
            };
            Ok(ExecutionRequest { program, public_input, non_determinism })
        },
    }
}

/// Execute the request and render its public output.
///
/// On graceful termination the result is the comma-and-space-joined line
/// of output values, or nothing when the output is empty (nothing is
/// printed then). An abnormal termination is an engine fault carrying the
/// engine's diagnostic.
pub fn run_request(req: &ExecutionRequest) -> (r: Result<Option<String>, CliError>)
    requires
        req.wf(),
    ensures
        r is Ok <==> req.output() is Some,
        r is Err ==> r->Err_0 is EngineFault,
        r is Ok ==> (r->Ok_0 is None <==> req.output()->Some_0.len() == 0),
        r is Ok ==> (r->Ok_0 matches Some(line) ==> line@ == joined_line(req.output()->Some_0)),
{
    match vm_run(&req.program, &req.public_input, &req.non_determinism) {
        Ok(output) => {
            if output.len() == 0 {
                Ok(None)
            } else {
                Ok(Some(render_output_line(&output)))
            }
        },
        Err(message) => Err(CliError::EngineFault { message }),
    }
}

/// Execute the request with profiling: besides the rendered output line,
/// produce the engine's execution profile followed by the table report of
/// the trace (per-table heights, the dominating table, and the padded
/// height). The profile text is diagnostics only and never affects the
/// primary outcome.
pub fn run_request_profiled(req: &ExecutionRequest) -> (r: Result<(Option<String>, String), CliError>)
    requires
        req.wf(),
    ensures
        r is Ok <==> req.output() is Some,
        r is Err ==> r->Err_0 is EngineFault,
        r is Ok ==> (r->Ok_0.0 is None <==> req.output()->Some_0.len() == 0),
        r is Ok ==> (r->Ok_0.0 matches Some(line) ==> line@ == joined_line(req.output()->Some_0)),
{
    let (output, profile) = match crate::engine::vm_profile(
        &req.program,
        &req.public_input,
        &req.non_determinism,
    ) {
        Ok(pair) => pair,
        Err(message) => {
            return Err(CliError::EngineFault { message });
        },
    };
    let trace = match trace_execution(&req.program, &req.public_input, &req.non_determinism) {
        Ok((trace, _)) => trace,
        Err(_) => {
            proof {
                assert(false);
            }
            return Err(CliError::EngineFault { message: String::new() });
        },
    };
    let heights = crate::engine::table_heights(&trace);
    let padded = crate::render::next_power_of_two(crate::render::max_height(&heights));
    let mut report = crate::engine::profile_display(&profile);
    report.append("\n\n");
    let table = crate::render::format_trace_report(&heights, padded);
    report.append(table.as_str());
    let line = if output.len() == 0 {
        None
    } else {
        Some(render_output_line(&output))
    };
    Ok((line, report))
}

/// What proving one request yields: the claim and the proof.
#[derive(Debug)]
pub struct ProveOutput {
    /// The claim: program digest, version, public input, public output.
    pub claim: ClaimData,
    /// The proof, as canonical field values.
    pub proof: Vec<u64>,
    /// The padded height of the execution trace (diagnostics only).
    pub padded_height: u64,
    /// The cycle count of the execution (diagnostics only).
    pub cycles: usize,
    /// The FRI domain length derived from the padded height, when the
    /// engine could derive one (diagnostics only).
    pub fri_domain_length: Option<usize>,
    /// The rendered table report of the execution trace, mirroring the
    /// profiled run's report (diagnostics only).
    pub table_report: String,
}

/// Prove one request: derive the claim from program identity and public
/// input, trace the execution, attach the realized output, and drive the
/// engine's prover.
///
/// A program that does not terminate gracefully aborts proving as an
/// engine fault, as does a rejected proof generation; nothing is
/// persisted on that path. On success the claim states exactly this
/// request's digest, input, and output, and the proof passes the engine's
/// verdict on that claim.
pub fn prove_request(req: &ExecutionRequest) -> (r: Result<ProveOutput, CliError>)
    requires
        req.wf(),
    ensures
        req.output() is None ==> r is Err,
        r is Err ==> r->Err_0 is EngineFault,
        r is Ok ==> req.output() is Some,
        r is Ok ==> {
            let p = r->Ok_0;
            &&& p.claim.wf()
            &&& p.claim.program_digest@ == program_digest_of(req.program.id())
            &&& p.claim.input@ == req.public_input@
            &&& p.claim.output@ == req.output()->Some_0
            &&& all_canonical(p.proof@)
            &&& stark_verdict(
                p.claim.program_digest@,
                p.claim.version,
                p.claim.input@,
                p.claim.output@,
                p.proof@,
            )
        },
{
    let digest = program_digest(&req.program);
    let (trace, output) = match trace_execution(
        &req.program,
        &req.public_input,
        &req.non_determinism,
    ) {
        Ok(pair) => pair,
        Err(message) => {
            return Err(CliError::EngineFault { message });
        },
    };
    let mut input: Vec<u64> = Vec::new();
    let mut i: usize = 0;
    while i < req.public_input.len()
        invariant
            i <= req.public_input@.len(),
            input@ == req.public_input@.take(i as int),
        decreases req.public_input@.len() - i,
    {
        input.push(req.public_input[i]);
        proof {
            assert(input@ =~= req.public_input@.take(i + 1));
        }
        i = i + 1;
    }
    proof {
        assert(req.public_input@.take(req.public_input@.len() as int) =~= req.public_input@);
    }
    let claim = ClaimData { program_digest: digest, version: current_version(), input, output };
    let heights = crate::engine::table_heights(&trace);
    let padded_height = crate::render::next_power_of_two(crate::render::max_height(&heights));
    let cycles = crate::engine::trace_cycles(&trace);
    let fri_domain_length = if padded_height <= 0x2000_0000 {
        match crate::engine::fri_domain_length(padded_height) {
            Ok(len) => Some(len),
            Err(_) => None,
        }
    } else {
        None
    };
    let table_report = crate::render::format_trace_report(&heights, padded_height);
    match stark_prove(&claim, &trace) {
        Ok(proof) => Ok(
            ProveOutput { claim, proof, padded_height, cycles, fri_domain_length, table_report },
        ),
        Err(message) => Err(CliError::EngineFault { message }),
    }
}

/// The verdict the persisted artifact pair denotes: nothing when either
/// artifact is malformed, else the engine's verdict on the denoted claim
/// and proof.
pub open spec fn spec_verify_artifacts(claim_text: Seq<char>, proof_bytes: Seq<u8>) -> Option<
    bool,
> {
    if parsed_claim(claim_text) is Some && proof_decoding_ok(proof_bytes) {
        let c = parsed_claim(claim_text)->Some_0;
        Some(stark_verdict(c.0, c.1, c.2, c.3, proof_decoding(proof_bytes)))
    } else {
        None
    }
}

/// Serialize the artifact pair for persistence: the claim as structured
/// text, the proof as compact binary.
///
/// Round trip: loading and verifying the serialized pair yields exactly
/// the engine's verdict on the pair itself. In particular, a pair
/// produced by proving — whose verdict is positive — verifies.
pub fn encode_artifacts(claim: &ClaimData, proof: &Vec<u64>) -> (r: (String, Vec<u8>))
    requires
        claim.wf(),
        all_canonical(proof@),
    ensures
        r.0@ == claim_json_of(claim.program_digest@, claim.version, claim.input@, claim.output@),
        r.1@ == proof_encoding(proof@),
        spec_verify_artifacts(r.0@, r.1@) == Some(
            stark_verdict(
                claim.program_digest@,
                claim.version,
                claim.input@,
                claim.output@,
                proof@,
            ),
        ),
{
    let json = claim_to_json(claim);
    let bytes = encode_proof(proof);
    proof {
        lemma_proof_codec_round_trip(proof@);
    }
    (json, bytes)
}

/// Verify a loaded artifact pair.
///
/// A malformed claim document or proof encoding is a deserialization
/// error whose message names the offending artifact; otherwise the
/// result is the engine's verdict — a negative verdict is not an error,
/// and is reported only through the boolean.
pub fn verify_artifacts(claim_text: &str, proof_bytes: &[u8]) -> (r: Result<bool, CliError>)
    ensures
        r is Ok <==> spec_verify_artifacts(claim_text@, proof_bytes@) is Some,
        r is Ok ==> r->Ok_0 == spec_verify_artifacts(claim_text@, proof_bytes@)->Some_0,
        r is Err ==> r->Err_0 is Deserialization,
{
    let claim = match claim_from_json(claim_text) {
        Ok(c) => c,
        Err(message) => {
            let mut tagged = String::new();
            tagged.append("claim file: ");
            tagged.append(message.as_str());
            return Err(CliError::Deserialization { message: tagged });
        },
    };
    let proof = match decode_proof(proof_bytes) {
        Ok(p) => p,
        Err(e) => {
            return Err(e);
        },
    };
    Ok(stark_verify(&claim, &proof))
}

} // verus!
