use karaoke_config::{bootstrap_action, bootstrap_failure, Bootstrap, BootstrapAction, ConfigError};

fn carry_out(action: BootstrapAction, file: Option<String>, template: &str) -> Option<String> {
    match action {
        BootstrapAction::WriteDefaults => Some(String::from(template)),
        BootstrapAction::LeaveUntouched => file,
    }
}

#[test]
fn missing_file_is_written() {
    assert_eq!(bootstrap_action(false), BootstrapAction::WriteDefaults);
}

#[test]
fn existing_file_is_left_untouched() {
    assert_eq!(bootstrap_action(true), BootstrapAction::LeaveUntouched);
}

#[test]
fn second_bootstrap_leaves_the_file_as_the_first_wrote_it() {
    let file: Option<String> = None;
    let first = carry_out(bootstrap_action(file.is_some()), file, "port: 8080\n");
    assert_eq!(first, Some(String::from("port: 8080\n")));
    let second = carry_out(bootstrap_action(first.is_some()), first.clone(), "port: 1\n");
    assert_eq!(second, first);
}

#[test]
fn each_bootstrap_outcome_has_its_error() {
    assert_eq!(bootstrap_failure(Bootstrap::AlreadyPresent), None);
    assert_eq!(bootstrap_failure(Bootstrap::Created), None);
    assert_eq!(
        bootstrap_failure(Bootstrap::DirectoryFailed),
        Some(ConfigError::IoFailure)
    );
    assert_eq!(
        bootstrap_failure(Bootstrap::EncodeFailed),
        Some(ConfigError::EncodeFailure)
    );
    assert_eq!(
        bootstrap_failure(Bootstrap::WriteFailed),
        Some(ConfigError::IoFailure)
    );
}
