use triton_cli::args::ProofArtifacts;
use triton_cli::commands::{
    build_request, encode_artifacts, prove_request, verify_artifacts, ResolvedInput,
};
use triton_cli::error::CliError;

/// Prove the program on the given sources and hand back the persisted
/// artifact pair: the claim document and the proof bytes.
fn prove_artifacts(
    program: &str,
    input: Option<&str>,
    non_determinism: Option<&str>,
) -> (String, Vec<u8>) {
    let src = ResolvedInput::SeparateFiles {
        program_code: program.to_string(),
        input_text: input.map(|s| s.to_string()),
        non_determinism_text: non_determinism.map(|s| s.to_string()),
    };
    let request = build_request(src).unwrap();
    let outcome = prove_request(&request).unwrap();
    encode_artifacts(&outcome.claim, &outcome.proof)
}

#[test]
fn prove_verify_trivial_program() {
    // Artifacts go to the default locations; verify reads the same pair.
    let artifacts = ProofArtifacts::default();
    let mut files: Vec<(String, Vec<u8>)> = Vec::new();
    let (claim_text, proof_bytes) = prove_artifacts("halt", None, None);
    files.push((artifacts.claim.clone(), claim_text.into_bytes()));
    files.push((artifacts.proof.clone(), proof_bytes));

    let claim = files.iter().find(|(p, _)| *p == artifacts.claim).unwrap();
    let proof = files.iter().find(|(p, _)| *p == artifacts.proof).unwrap();
    let claim_text = String::from_utf8(claim.1.clone()).unwrap();
    let verdict = verify_artifacts(&claim_text, &proof.1).unwrap();
    assert!(verdict);
}

#[test]
fn prove_verify_trivial_program_to_dedicated_files() {
    // Matching dedicated paths verify; the default paths then hold no
    // artifacts, which surfaces as a missing file before this layer.
    let artifacts = ProofArtifacts {
        claim: "dedicated.claim".to_string(),
        proof: "dedicated.proof".to_string(),
    };
    let mut files: Vec<(String, Vec<u8>)> = Vec::new();
    let (claim_text, proof_bytes) = prove_artifacts("halt", None, None);
    files.push((artifacts.claim.clone(), claim_text.into_bytes()));
    files.push((artifacts.proof.clone(), proof_bytes));

    let claim = files.iter().find(|(p, _)| *p == artifacts.claim).unwrap();
    let proof = files.iter().find(|(p, _)| *p == artifacts.proof).unwrap();
    let claim_text = String::from_utf8(claim.1.clone()).unwrap();
    assert!(verify_artifacts(&claim_text, &proof.1).unwrap());

    let defaults = ProofArtifacts::default();
    assert!(files.iter().find(|(p, _)| *p == defaults.claim).is_none());
    assert!(files.iter().find(|(p, _)| *p == defaults.proof).is_none());
}

#[test]
fn prove_verify_program_with_input() {
    let (claim_text, proof_bytes) =
        prove_artifacts("read_io 1 push 42 eq assert halt", Some("42"), None);
    assert!(verify_artifacts(&claim_text, &proof_bytes).unwrap());
}

#[test]
fn prove_verify_program_with_input_file() {
    let (claim_text, proof_bytes) =
        prove_artifacts("read_io 4 mul mul mul write_io 1 halt", Some("17, 19, 23, 29"), None);
    assert!(verify_artifacts(&claim_text, &proof_bytes).unwrap());
}

#[test]
fn prove_verify_program_with_non_determinism() {
    let non_det = r#"{"individual_tokens":[255],"digests":[],"ram":{"8": 100, "9": 200, "10": 300}}"#;
    let (claim_text, proof_bytes) =
        prove_artifacts("push 10 read_mem 3 write_io 3 halt", None, Some(non_det));
    assert!(verify_artifacts(&claim_text, &proof_bytes).unwrap());
}

#[test]
fn prove_of_crashing_program_is_an_engine_fault_and_yields_no_artifacts() {
    let src = ResolvedInput::SeparateFiles {
        program_code: "read_io 1 push 42 eq assert halt".to_string(),
        input_text: Some("41".to_string()),
        non_determinism_text: None,
    };
    let request = build_request(src).unwrap();
    let err = prove_request(&request).unwrap_err();
    assert!(matches!(err, CliError::EngineFault { .. }));
}

#[test]
fn tampered_proof_never_verifies() {
    let (claim_text, proof_bytes) = prove_artifacts("halt", None, None);
    // Flip one byte at a sample of positions: the result is a
    // deserialization failure or a negative verdict, never a positive one.
    let positions =
        [0, 1, 7, 8, proof_bytes.len() / 2, proof_bytes.len() - 9, proof_bytes.len() - 1];
    for &pos in positions.iter() {
        let mut tampered = proof_bytes.clone();
        tampered[pos] ^= 0x01;
        match verify_artifacts(&claim_text, &tampered) {
            Ok(verdict) => assert!(!verdict, "tampered byte {pos} still verified"),
            Err(e) => assert!(matches!(e, CliError::Deserialization { .. })),
        }
    }
    // Truncation is a deserialization failure.
    let truncated = &proof_bytes[..proof_bytes.len() - 1];
    assert!(matches!(
        verify_artifacts(&claim_text, truncated),
        Err(CliError::Deserialization { .. })
    ));
}

#[test]
fn proof_paired_with_an_unrelated_claim_is_rejected() {
    let (_, proof_bytes) = prove_artifacts("halt", None, None);
    let (other_claim, _) = prove_artifacts("push 1 pop 1 halt", None, None);
    match verify_artifacts(&other_claim, &proof_bytes) {
        Ok(verdict) => assert!(!verdict),
        Err(e) => assert!(matches!(e, CliError::Deserialization { .. })),
    }
}

#[test]
fn malformed_claim_document_is_a_deserialization_error() {
    let (_, proof_bytes) = prove_artifacts("halt", None, None);
    let err = verify_artifacts("{ not json", &proof_bytes).unwrap_err();
    assert!(matches!(err, CliError::Deserialization { .. }));
    // The message names the offending artifact, telling a malformed claim
    // from a malformed proof.
    assert!(err.message().contains("claim file:"));
}

#[test]
fn prove_records_input_and_output_in_the_claim() {
    let src = ResolvedInput::SeparateFiles {
        program_code: "read_io 2 add write_io 1 halt".to_string(),
        input_text: Some("42,58".to_string()),
        non_determinism_text: None,
    };
    let request = build_request(src).unwrap();
    let outcome = prove_request(&request).unwrap();
    assert_eq!(outcome.claim.input, vec![42, 58]);
    assert_eq!(outcome.claim.output, vec![100]);
    assert_eq!(outcome.claim.program_digest.len(), 5);
    assert!(outcome.padded_height.is_power_of_two());
    assert!(outcome.cycles >= 1);
    assert!(outcome.fri_domain_length.is_some());
    assert!(outcome.table_report.contains("| Dominates |"));
    assert!(outcome.table_report.contains("Padded height: 2^"));
}
