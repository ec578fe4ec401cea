use triton_cli::codec::{decode_proof, encode_proof};
use triton_cli::error::CliError;
use triton_cli::field::FIELD_ORDER;
use triton_cli::render::{
    decimal_string, format_trace_report, log2, max_height, next_power_of_two, render_output_line,
};

#[test]
fn decimal_rendering_is_exact() {
    assert_eq!(decimal_string(0), "0");
    assert_eq!(decimal_string(7), "7");
    assert_eq!(decimal_string(100), "100");
    assert_eq!(decimal_string(u64::MAX), "18446744073709551615");
}

#[test]
fn output_line_is_comma_and_space_joined() {
    assert_eq!(render_output_line(&vec![]), "");
    assert_eq!(render_output_line(&vec![100]), "100");
    assert_eq!(render_output_line(&vec![1, 2, 3]), "1, 2, 3");
}

#[test]
fn next_power_of_two_rounds_up() {
    assert_eq!(next_power_of_two(0), 1);
    assert_eq!(next_power_of_two(1), 1);
    assert_eq!(next_power_of_two(2), 2);
    assert_eq!(next_power_of_two(3), 4);
    assert_eq!(next_power_of_two(1000), 1024);
}

#[test]
fn log2_of_powers_of_two() {
    assert_eq!(log2(1), 0);
    assert_eq!(log2(2), 1);
    assert_eq!(log2(256), 8);
    assert_eq!(log2(1u64 << 63), 63);
}

#[test]
fn trace_report_layout_is_exact() {
    let rows = vec![("Program".to_string(), 4u64), ("Processor".to_string(), 8u64)];
    assert_eq!(max_height(&rows), 8);
    let report = format_trace_report(&rows, 8);
    let expected = "| Table     | Height | Dominates |\n\
                    |:----------|-------:|----------:|\n\
                    | Program   |      4 |        no |\n\
                    | Processor |      8 |       yes |\n\
                    \n\
                    Padded height: 2^3\n";
    assert_eq!(report, expected);
}

#[test]
fn trace_report_widens_the_height_column() {
    let rows = vec![("Hash".to_string(), 12345678u64)];
    let report = format_trace_report(&rows, 16777216);
    assert!(report.contains("| Table     | "));
    assert!(report.contains("12345678"));
    assert!(report.contains("Padded height: 2^24"));
}

#[test]
fn proof_codec_round_trips() {
    let proof = vec![0u64, 1, 42, FIELD_ORDER - 1];
    let bytes = encode_proof(&proof);
    assert_eq!(bytes.len(), 8 * proof.len());
    let decoded = decode_proof(&bytes).unwrap();
    assert_eq!(decoded, proof);
}

#[test]
fn proof_codec_is_little_endian() {
    let bytes = encode_proof(&vec![0x0102_0304_0506_0708u64]);
    assert_eq!(bytes, vec![0x08, 0x07, 0x06, 0x05, 0x04, 0x03, 0x02, 0x01]);
}

#[test]
fn proof_decoding_rejects_ragged_lengths() {
    let err = decode_proof(&[1, 2, 3]).unwrap_err();
    assert!(matches!(err, CliError::Deserialization { .. }));
}

#[test]
fn proof_decoding_rejects_values_beyond_the_field_order() {
    let bytes = encode_proof(&vec![u64::MAX]);
    let err = decode_proof(&bytes).unwrap_err();
    assert!(matches!(err, CliError::Deserialization { .. }));
}

#[test]
fn max_table_label_len_is_9() {
    let max_table_label_len = <triton_vm::prelude::TableId as strum::IntoEnumIterator>::iter()
        .map(|id| id.to_string().len())
        .max()
        .unwrap();
    assert_eq!(9, max_table_label_len);
}

#[test]
fn fri_domain_length_matches_the_engine() {
    let from_library = triton_cli::engine::fri_domain_length(256).unwrap();
    let from_engine = triton_vm::prelude::Stark::default().fri(256).unwrap().domain.len();
    assert_eq!(from_library, from_engine);
}

#[test]
fn error_messages_name_their_category() {
    let io = CliError::Io {
        role: triton_cli::error::FileRole::Program,
        message: "no such file".to_string(),
    };
    assert_eq!(io.message(), "i/o error for argument 'program': no such file");
    let fault = CliError::EngineFault { message: "jump stack is empty".to_string() };
    assert_eq!(fault.message(), "execution error: jump stack is empty");
}
