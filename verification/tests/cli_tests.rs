use trash_tool::cli::{assemble_chooser_args, choose_command, chooser_arguments, Command};

fn strings(list: &[&str]) -> Vec<String> {
    list.iter().map(|s| s.to_string()).collect()
}

#[test]
fn chooser_arguments_without_environment_or_skim() {
    let cli_args = strings(&["trash-tool", "-r"]);
    assert_eq!(chooser_arguments(&cli_args, ""), strings(&["trash-tool"]));
}

#[test]
fn chooser_arguments_from_the_environment() {
    let cli_args = strings(&["trash-tool", "-r"]);
    assert_eq!(
        chooser_arguments(&cli_args, "--multi --height 50%"),
        strings(&["trash-tool", "--multi", "--height", "50%"])
    );
    assert_eq!(
        chooser_arguments(&cli_args, "--prompt 'a b' \"c d\""),
        strings(&["trash-tool", "--prompt", "a b", "c d"])
    );
}

#[test]
fn chooser_arguments_from_the_command_line() {
    let cli_args = strings(&["trash-tool", "-r", "skim", "--multi", "--height", "50%"]);
    assert_eq!(
        chooser_arguments(&cli_args, ""),
        strings(&["trash-tool", "--multi", "--height", "50%"])
    );
}

#[test]
fn command_line_comes_after_the_environment() {
    let cli_args = strings(&["trash-tool", "-r", "skim", "--height", "80%"]);
    assert_eq!(
        chooser_arguments(&cli_args, "--multi --height 50%"),
        strings(&["trash-tool", "--multi", "--height", "50%", "--height", "80%"])
    );
}

#[test]
fn a_value_that_a_shell_refuses_gives_no_words() {
    let cli_args = strings(&["trash-tool", "skim", "skim", "x"]);
    assert_eq!(
        chooser_arguments(&cli_args, "--prompt 'unclosed"),
        strings(&["trash-tool", "skim", "x"])
    );
}

#[test]
fn assemble_keeps_words_as_given() {
    let cli_args = strings(&["skim"]);
    assert_eq!(assemble_chooser_args(&cli_args, strings(&["a b"])), strings(&["skim", "a b"]));
}

#[test]
fn choose_command_orders_the_wishes() {
    assert_eq!(choose_command(true, true, true, true, true), Command::MoveToTrash);
    assert_eq!(choose_command(false, true, true, true, true), Command::Restore);
    assert_eq!(choose_command(false, true, false, true, true), Command::Nothing);
    assert_eq!(choose_command(false, false, false, true, false), Command::EmptyTrash);
    assert_eq!(choose_command(false, false, true, false, true), Command::EmptyTrash);
    assert_eq!(choose_command(false, false, false, false, false), Command::DisplayTrash);
}
