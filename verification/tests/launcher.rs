//! Launcher decisions and the environment string helpers.

use authkit::environ::serialize_entry;
use authkit::environ::split_entry;
use authkit::launcher::cli;
use authkit::launcher::validate_tty_number;
use authkit::launcher::Command;
use authkit::launcher::DisplayMode;
use authkit::launcher::LaunchPlan;
use authkit::launcher::StartTarget;
use authkit::launcher::TtyNumberError;

#[test]
fn tty_numbers_parse_like_ordinary_sixteen_bit_numbers() {
    assert_eq!(validate_tty_number(&b"3".to_vec()), Ok(3));
    assert_eq!(validate_tty_number(&b"+12".to_vec()), Ok(12));
    assert_eq!(validate_tty_number(&b"007".to_vec()), Ok(7));
    assert_eq!(validate_tty_number(&b"65535".to_vec()), Ok(65535));
}

#[test]
fn tty_number_rejections() {
    assert_eq!(validate_tty_number(&b"".to_vec()), Err(TtyNumberError::NotANumber));
    assert_eq!(validate_tty_number(&b"+".to_vec()), Err(TtyNumberError::NotANumber));
    assert_eq!(validate_tty_number(&b"abc".to_vec()), Err(TtyNumberError::NotANumber));
    assert_eq!(validate_tty_number(&b"12a".to_vec()), Err(TtyNumberError::NotANumber));
    assert_eq!(validate_tty_number(&b"-3".to_vec()), Err(TtyNumberError::NotANumber));
    assert_eq!(validate_tty_number(&b"65536".to_vec()), Err(TtyNumberError::NotANumber));
    assert_eq!(
        validate_tty_number(&b"99999999999999999999".to_vec()),
        Err(TtyNumberError::NotANumber)
    );
    assert_eq!(validate_tty_number(&b"0".to_vec()), Err(TtyNumberError::TooSmall));
    assert_eq!(validate_tty_number(&b"+0".to_vec()), Err(TtyNumberError::TooSmall));
}

#[test]
fn no_command_starts_the_display_on_the_first_terminal() {
    assert!(matches!(cli(None), LaunchPlan::DisplayTty(1)));
}

#[test]
fn commands_map_to_their_steps() {
    assert!(matches!(
        cli(Some(Command::Start(StartTarget::Display(DisplayMode::Tty { tty_number: 4 })))),
        LaunchPlan::DisplayTty(4)
    ));
    assert!(matches!(
        cli(Some(Command::Start(StartTarget::Display(DisplayMode::Winit)))),
        LaunchPlan::DisplayWinit
    ));
    assert!(matches!(cli(Some(Command::PatchConfig)), LaunchPlan::PatchConfig));
}

#[test]
fn greeter_prompt_flag_overrides_the_user() {
    match cli(Some(Command::Start(StartTarget::Greeter {
        user: Some(b"alice".to_vec()),
        prompt: true,
    }))) {
        LaunchPlan::GreeterPrompt => {},
        other => panic!("wrong plan: {:?}", other),
    }
    match cli(Some(Command::Start(StartTarget::Greeter {
        user: Some(b"alice".to_vec()),
        prompt: false,
    }))) {
        LaunchPlan::Greeter { user } => assert_eq!(user, Some(b"alice".to_vec())),
        other => panic!("wrong plan: {:?}", other),
    }
}

#[test]
fn session_keeps_the_chosen_user() {
    match cli(Some(Command::Start(StartTarget::Session { user: None }))) {
        LaunchPlan::Session { user } => assert_eq!(user, None),
        other => panic!("wrong plan: {:?}", other),
    }
}

#[test]
fn environment_entries_serialize_as_key_value() {
    assert_eq!(
        serialize_entry(&b"USER".to_vec(), Some(&b"alice".to_vec())),
        b"USER=alice".to_vec()
    );
    assert_eq!(serialize_entry(&b"USER".to_vec(), Some(&b"".to_vec())), b"USER=".to_vec());
    assert_eq!(serialize_entry(&b"USER".to_vec(), None), b"USER".to_vec());
}

#[test]
fn environment_entries_split_at_the_first_separator() {
    assert_eq!(
        split_entry(&b"USER=alice".to_vec()),
        (b"USER".to_vec(), b"alice".to_vec())
    );
    assert_eq!(split_entry(&b"KEY=".to_vec()), (b"KEY".to_vec(), b"".to_vec()));
    assert_eq!(split_entry(&b"KEY".to_vec()), (b"KEY".to_vec(), b"".to_vec()));
    assert_eq!(split_entry(&b"A=B=C".to_vec()), (b"A".to_vec(), b"B=C".to_vec()));
    assert_eq!(split_entry(&b"=X".to_vec()), (b"".to_vec(), b"X".to_vec()));
}
