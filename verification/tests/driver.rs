use multiply_cli::run;
use multiply_cli::RunOutcome;

fn args_of(tokens: &[&str]) -> Vec<String> {
    tokens.iter().map(|t| t.to_string()).collect()
}

#[test]
fn test_run_wrong_argument_count() {
    assert_eq!(run(&args_of(&["prog"])), RunOutcome::Usage);
    assert_eq!(run(&args_of(&["prog", "2"])), RunOutcome::Usage);
    assert_eq!(run(&args_of(&["prog", "2", "3", "4"])), RunOutcome::Usage);
    assert_eq!(run(&args_of(&[])), RunOutcome::Usage);
}

#[test]
fn test_run_invalid_number_names_token() {
    assert_eq!(
        run(&args_of(&["prog", "abc", "3"])),
        RunOutcome::InvalidNumber {
            token: "abc".to_string()
        }
    );
    assert_eq!(
        run(&args_of(&["prog", "2", "x7"])),
        RunOutcome::InvalidNumber {
            token: "x7".to_string()
        }
    );
    assert_eq!(
        run(&args_of(&["prog", "first", "second"])),
        RunOutcome::InvalidNumber {
            token: "first".to_string()
        }
    );
}

#[test]
fn test_run_negative_operand() {
    assert_eq!(
        run(&args_of(&["prog", "-1", "5"])),
        RunOutcome::Validation {
            message: "Negative numbers are not allowed".to_string()
        }
    );
    assert_eq!(
        run(&args_of(&["prog", "5", "-1"])),
        RunOutcome::Validation {
            message: "Negative numbers are not allowed".to_string()
        }
    );
}

#[test]
fn test_run_success() {
    assert_eq!(
        run(&args_of(&["prog", "2", "3"])),
        RunOutcome::Success {
            num1: 2,
            num2: 3,
            product: 6
        }
    );
    assert_eq!(
        run(&args_of(&["prog", "0", "5"])),
        RunOutcome::Success {
            num1: 0,
            num2: 5,
            product: 0
        }
    );
    assert_eq!(
        run(&args_of(&["prog", "1000000000", "2"])),
        RunOutcome::Success {
            num1: 1000000000,
            num2: 2,
            product: 2000000000
        }
    );
}
