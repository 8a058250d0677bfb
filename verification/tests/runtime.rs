use twill::runtime::RuntimeRecoveryState;

fn args(values: &[&str]) -> Vec<String> {
    values.iter().map(|value| value.to_string()).collect()
}

#[test]
fn recognizes_the_exact_safe_mode_argument() {
    let state = RuntimeRecoveryState::from_args(&args(&["twill", "--safe-mode"]));

    assert!(state.safe_mode);
}

#[test]
fn ignores_similar_arguments() {
    for argument in ["safe-mode", "--safe-mode=true", "--safe_mode"] {
        let state = RuntimeRecoveryState::from_args(&args(&["twill", argument]));

        assert!(!state.safe_mode, "accepted {argument}");
    }
}
