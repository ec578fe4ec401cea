use triton_cli::commands::{build_request, run_request, run_request_profiled, ResolvedInput};
use triton_cli::error::CliError;
use triton_cli::field::FIELD_ORDER;
use triton_vm::prelude::{BFieldElement, NonDeterminism, Program, PublicInput, VMState};

fn run_separate(
    program: &str,
    input: Option<&str>,
    non_determinism: Option<&str>,
) -> Result<Option<String>, CliError> {
    let src = ResolvedInput::SeparateFiles {
        program_code: program.to_string(),
        input_text: input.map(|s| s.to_string()),
        non_determinism_text: non_determinism.map(|s| s.to_string()),
    };
    let request = build_request(src)?;
    run_request(&request)
}

#[test]
fn run_trivial_program() {
    let line = run_separate("halt", None, None).unwrap();
    assert_eq!(line, None);
}

#[test]
fn run_program_with_input() {
    let line = run_separate("read_io 1 push 42 eq assert halt", Some("42"), None).unwrap();
    assert_eq!(line, None);
}

#[test]
fn run_program_add_with_input_write_output() {
    let line = run_separate("read_io 2 add write_io 1 halt", Some("42,58"), None).unwrap();
    assert_eq!(line.as_deref(), Some("100"));
}

#[test]
fn run_program_mul_with_input_file_write_output() {
    // The input file's contents, already read: wraparound in the field's
    // modulus.
    let line = run_separate("read_io 2 mul write_io 1 halt", Some("-17, 2221"), None).unwrap();
    assert_eq!(line.as_deref(), Some("18446744069414546564"));
}

#[test]
fn run_program_with_non_determinism_write_output() {
    let non_det = r#"{"individual_tokens":[255],"digests":[],"ram":{}}"#;
    let line = run_separate("divine 1 write_io 1 halt", None, Some(non_det)).unwrap();
    assert_eq!(line.as_deref(), Some("255"));
}

#[test]
fn run_program_with_ram_non_determinism() {
    let non_det = r#"{"individual_tokens":[],"digests":[],"ram":{"10": 300}}"#;
    let line = run_separate("push 10 read_mem 1 pop 1 write_io 1 halt", None, Some(non_det))
        .unwrap();
    assert_eq!(line.as_deref(), Some("300"));
}

#[test]
fn run_multiple_outputs_are_joined_with_comma_and_space() {
    let line = run_separate("read_io 3 write_io 3 halt", Some("5, 6, 7"), None).unwrap();
    assert_eq!(line.as_deref(), Some("7, 6, 5"));
}

#[test]
fn crashing_program_is_an_engine_fault() {
    let err = run_separate("read_io 1 push 42 eq assert halt", Some("41"), None).unwrap_err();
    assert!(matches!(err, CliError::EngineFault { .. }));
}

#[test]
fn malformed_program_is_a_parse_error() {
    let err = run_separate("not an instruction", None, None).unwrap_err();
    assert!(matches!(err, CliError::Parse { .. }));
}

#[test]
fn malformed_non_determinism_is_a_deserialization_error() {
    let err = run_separate("halt", None, Some("{ not json")).unwrap_err();
    assert!(matches!(err, CliError::Deserialization { .. }));
}

#[test]
fn malformed_initial_state_is_a_deserialization_error() {
    let src = ResolvedInput::InitialState { text: "{ not json".to_string() };
    let err = match build_request(src) {
        Err(e) => e,
        Ok(_) => panic!("expected an error"),
    };
    assert!(matches!(err, CliError::Deserialization { .. }));
}

#[test]
fn shape_equivalence_of_separate_files_and_initial_state() {
    // Resolving separate files, re-deriving the equivalent initial-state
    // document, and resolving that yields identical engine output.
    let code = "read_io 2 add write_io 1 halt";
    let separate = run_separate(code, Some("42,58"), None).unwrap();

    let program = Program::from_code(code).unwrap();
    let input = PublicInput::new(vec![BFieldElement::new(42), BFieldElement::new(58)]);
    let state = VMState::new(program, input, NonDeterminism::default());
    let document = serde_json::to_string(&state).unwrap();

    let request = build_request(ResolvedInput::InitialState { text: document }).unwrap();
    let from_state = run_request(&request).unwrap();

    assert_eq!(separate, from_state);
    assert_eq!(separate.as_deref(), Some("100"));
}

#[test]
fn profiled_run_reports_the_dominating_table() {
    let src = ResolvedInput::SeparateFiles {
        program_code: "read_io 2 add write_io 1 halt".to_string(),
        input_text: Some("42,58".to_string()),
        non_determinism_text: None,
    };
    let request = build_request(src).unwrap();
    let (line, report) = run_request_profiled(&request).unwrap();
    assert_eq!(line.as_deref(), Some("100"));
    assert!(report.contains("| Table     |"));
    assert!(report.contains("| Dominates |"));
    assert!(report.contains("yes"));
    assert!(report.contains("Padded height: 2^"));
}

#[test]
fn inline_input_values_map_into_the_field() {
    let values = triton_cli::input::parse_public_input("-17, 2221").unwrap();
    assert_eq!(values, vec![FIELD_ORDER - 17, 2221]);
}

#[test]
fn inline_input_accepts_signs_whitespace_and_zero() {
    let values = triton_cli::input::parse_public_input(" +5 ,\t-0 , 007 ").unwrap();
    assert_eq!(values, vec![5, 0, 7]);
}

#[test]
fn inline_input_extremes_of_the_signed_domain() {
    let values =
        triton_cli::input::parse_public_input("-9223372036854775808, 9223372036854775807")
            .unwrap();
    assert_eq!(values, vec![FIELD_ORDER - 9223372036854775808, 9223372036854775807]);
}

#[test]
fn empty_inline_input_piece_is_a_parse_error() {
    let err = triton_cli::input::parse_public_input("").unwrap_err();
    assert!(matches!(err, CliError::Parse { .. }));
    let err = triton_cli::input::parse_public_input("1,,2").unwrap_err();
    assert!(matches!(err, CliError::Parse { .. }));
}

#[test]
fn non_numeric_inline_input_is_a_parse_error() {
    let err = triton_cli::input::parse_public_input("1, x, 3").unwrap_err();
    assert!(matches!(err, CliError::Parse { .. }));
    let err = triton_cli::input::parse_public_input("1.5").unwrap_err();
    assert!(matches!(err, CliError::Parse { .. }));
}

#[test]
fn oversized_inline_input_is_a_range_error() {
    let err = triton_cli::input::parse_public_input("9223372036854775808").unwrap_err();
    assert!(matches!(err, CliError::Range { .. }));
    let err = triton_cli::input::parse_public_input("-9223372036854775809").unwrap_err();
    assert!(matches!(err, CliError::Range { .. }));
}

#[test]
fn field_mapping_of_negative_values_wraps_at_the_field_order() {
    assert_eq!(triton_cli::field::field_element_from_i64(-1), FIELD_ORDER - 1);
    assert_eq!(triton_cli::field::field_element_from_i64(0), 0);
    assert_eq!(triton_cli::field::field_element_from_i64(42), 42);
    assert_eq!(
        triton_cli::field::field_element_from_i64(i64::MIN),
        FIELD_ORDER - 9223372036854775808
    );
}
