use surflog::cli::{get_args, ArgsError, Command};

fn args(words: &[&str]) -> Vec<String> {
    words.iter().map(|w| w.to_string()).collect()
}

#[test]
fn add_interactive_and_direct() {
    assert_eq!(get_args(&args(&["add"])), Ok(Command::Add { fields: vec![] }));
    assert_eq!(
        get_args(&args(&["add", "Pipeline", "2024-03-10 07:30", "45", "8", "6.5"])),
        Ok(Command::Add { fields: args(&["Pipeline", "2024-03-10 07:30", "45", "8", "6.5"]) })
    );
    assert_eq!(get_args(&args(&["add", "Pipeline"])), Err(ArgsError::WrongArgumentCount));
}

#[test]
fn delete_takes_an_identifier() {
    assert_eq!(get_args(&args(&["delete", "12"])), Ok(Command::Delete { id: 12 }));
    assert_eq!(get_args(&args(&["delete", "twelve"])), Err(ArgsError::InvalidId));
    assert_eq!(get_args(&args(&["delete"])), Err(ArgsError::WrongArgumentCount));
}

#[test]
fn list_with_and_without_location() {
    assert_eq!(get_args(&args(&["list"])), Ok(Command::List { location: None }));
    assert_eq!(
        get_args(&args(&["list", "Malibu"])),
        Ok(Command::List { location: Some("Malibu".to_string()) })
    );
    assert_eq!(get_args(&args(&["list", "a", "b"])), Err(ArgsError::WrongArgumentCount));
}

#[test]
fn config_and_unknown_commands() {
    assert_eq!(get_args(&args(&["config"])), Ok(Command::Config));
    assert_eq!(get_args(&args(&["config", "x"])), Err(ArgsError::WrongArgumentCount));
    assert_eq!(get_args(&args(&["surf"])), Err(ArgsError::UnknownCommand));
    assert_eq!(get_args(&args(&[])), Err(ArgsError::MissingCommand));
}
