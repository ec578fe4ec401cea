use triton_cli::args::{InputArgs, InputShape, InputSource, ProofArtifacts, RunArgs, SeparateFilesRunArgs};
use triton_cli::error::UsageError;

fn empty_separate_files() -> SeparateFilesRunArgs {
    SeparateFilesRunArgs { program: None, public_input: None, non_determinism: None }
}

#[test]
fn run_and_prove_initial_state_conflicts_with_other_arguments() {
    // One conflicting argument at a time, as run and prove resolve the
    // same argument bag.
    let conflicting: Vec<SeparateFilesRunArgs> = vec![
        SeparateFilesRunArgs {
            program: Some("b.tasm".to_string()),
            public_input: None,
            non_determinism: None,
        },
        SeparateFilesRunArgs {
            program: None,
            public_input: Some(InputArgs { input: Some("1,2,3".to_string()), input_file: None }),
            non_determinism: None,
        },
        SeparateFilesRunArgs {
            program: None,
            public_input: Some(InputArgs { input: None, input_file: Some("i.txt".to_string()) }),
            non_determinism: None,
        },
        SeparateFilesRunArgs {
            program: None,
            public_input: None,
            non_determinism: Some("n.json".to_string()),
        },
    ];
    for separate_files in conflicting {
        let args = RunArgs { initial_state: Some("state.json".to_string()), separate_files };
        let err = args.resolve().unwrap_err();
        assert!(matches!(err, UsageError::InitialStateConflict));
        assert!(err.message().contains("cannot be used with"));
    }
}

#[test]
fn inline_input_conflicts_with_input_file() {
    let args = RunArgs {
        initial_state: None,
        separate_files: SeparateFilesRunArgs {
            program: Some("a.tasm".to_string()),
            public_input: Some(InputArgs {
                input: Some("1".to_string()),
                input_file: Some("i.txt".to_string()),
            }),
            non_determinism: None,
        },
    };
    let err = args.resolve().unwrap_err();
    assert!(matches!(err, UsageError::InputConflict));
    assert!(err.message().contains("cannot be used with"));
}

#[test]
fn input_conflict_also_fails_under_initial_state() {
    let args = RunArgs {
        initial_state: Some("state.json".to_string()),
        separate_files: SeparateFilesRunArgs {
            program: None,
            public_input: Some(InputArgs {
                input: Some("1".to_string()),
                input_file: Some("i.txt".to_string()),
            }),
            non_determinism: None,
        },
    };
    assert!(args.resolve().is_err());
}

#[test]
fn missing_program_is_a_usage_error_distinct_from_io() {
    let args = RunArgs { initial_state: None, separate_files: empty_separate_files() };
    let err = args.resolve().unwrap_err();
    assert!(matches!(err, UsageError::MissingProgram));
    // A usage error, detected before any file is touched: its message
    // names the missing argument, not a file.
    assert_eq!(
        err.message(),
        "either argument 'initial state' or 'program' must be supplied"
    );
}

#[test]
fn initial_state_alone_resolves_to_the_initial_state_shape() {
    let args = RunArgs {
        initial_state: Some("state.json".to_string()),
        separate_files: empty_separate_files(),
    };
    match args.resolve().unwrap() {
        InputShape::InitialState { path } => assert_eq!(path, "state.json"),
        other => panic!("wrong shape: {other:?}"),
    }
}

#[test]
fn separate_files_resolve_with_defaults() {
    let args = RunArgs {
        initial_state: None,
        separate_files: SeparateFilesRunArgs {
            program: Some("a.tasm".to_string()),
            public_input: None,
            non_determinism: None,
        },
    };
    match args.resolve().unwrap() {
        InputShape::SeparateFiles { program_path, input, non_determinism_path } => {
            assert_eq!(program_path, "a.tasm");
            assert!(matches!(input, InputSource::Empty));
            assert!(non_determinism_path.is_none());
        },
        other => panic!("wrong shape: {other:?}"),
    }
}

#[test]
fn inline_input_resolves_to_the_inline_source() {
    let input_args = InputArgs { input: Some("1, 2".to_string()), input_file: None };
    match input_args.resolve().unwrap() {
        InputSource::Inline { text } => assert_eq!(text, "1, 2"),
        other => panic!("wrong source: {other:?}"),
    }
}

#[test]
fn artifact_paths_default_to_the_fixed_names() {
    let artifacts = ProofArtifacts::default();
    assert_eq!(artifacts.claim, "triton.claim");
    assert_eq!(artifacts.proof, "triton.proof");
}
