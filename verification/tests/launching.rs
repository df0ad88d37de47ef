use rust_flipit::launch::{launch_command, LaunchCommand};

fn run(args: &[&str]) -> Option<LaunchCommand> {
    let v: Vec<String> = args.iter().map(|s| s.to_string()).collect();
    launch_command(&v)
}

#[test]
fn no_argument_opens_settings() {
    assert_eq!(run(&[]), Some(LaunchCommand::Configure));
    assert_eq!(run(&["flipit.scr"]), Some(LaunchCommand::Configure));
}

#[test]
fn plain_commands() {
    assert_eq!(run(&["f", "/s"]), Some(LaunchCommand::Fullscreen));
    assert_eq!(run(&["f", "/S"]), Some(LaunchCommand::Fullscreen));
    assert_eq!(run(&["f", "/c"]), Some(LaunchCommand::Configure));
    assert_eq!(run(&["f", "/x"]), Some(LaunchCommand::InvalidArgument));
    assert_eq!(run(&["f", "/sx"]), Some(LaunchCommand::InvalidArgument));
}

#[test]
fn preview_handles() {
    assert_eq!(run(&["f", "/p", "123"]), Some(LaunchCommand::Preview(123)));
    assert_eq!(run(&["f", "/P", "-5"]), Some(LaunchCommand::Preview(-5)));
    assert_eq!(run(&["f", "/p:456"]), Some(LaunchCommand::Preview(456)));
    assert_eq!(run(&["f", "/p"]), Some(LaunchCommand::NoPreviewHandle));
    assert_eq!(run(&["f", "/p", "abc"]), Some(LaunchCommand::BadPreviewHandle));
    assert_eq!(run(&["f", "/p:"]), Some(LaunchCommand::BadPreviewHandle));
}

#[test]
fn colon_forms() {
    assert_eq!(run(&["f", "/c:1234"]), Some(LaunchCommand::Configure));
    assert_eq!(run(&["f", "/:1234"]), Some(LaunchCommand::InvalidArgument));
    assert_eq!(run(&["f", ":::"]), Some(LaunchCommand::InvalidArgument));
    assert_eq!(run(&["f", "/s:"]), Some(LaunchCommand::Fullscreen));
}

#[test]
fn cut_inside_a_lowercased_character() {
    // 'İ' takes two bytes but lowercases to three, so byte 2 falls inside a character.
    assert_eq!(run(&["f", "İ:x"]), None);
}
