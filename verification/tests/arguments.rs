use tinifycli::args::{parse_args, Command};

#[test]
fn set_without_value_is_usage_error() {
    let args = vec![String::from("set")];
    assert_eq!(parse_args(&args), Command::PersistMissingValue);
}

#[test]
fn set_with_value_persists_trimmed_key() {
    let args = vec![String::from("set"), String::from("  abc ")];
    assert_eq!(parse_args(&args), Command::Persist(String::from("abc")));
}

#[test]
fn set_with_extra_arguments_still_persists_second() {
    let args = vec![String::from("set"), String::from("k"), String::from("x")];
    assert_eq!(parse_args(&args), Command::Persist(String::from("k")));
}

#[test]
fn first_argument_is_key_for_this_run() {
    let args = vec![String::from("xyz"), String::from("other")];
    assert_eq!(parse_args(&args), Command::RunWith(String::from("xyz")));
}

#[test]
fn key_given_on_command_line_is_not_trimmed() {
    let args = vec![String::from(" k ")];
    assert_eq!(parse_args(&args), Command::RunWith(String::from(" k ")));
}

#[test]
fn no_arguments_means_stored_key() {
    let args: Vec<String> = vec![];
    assert_eq!(parse_args(&args), Command::RunStored);
}
