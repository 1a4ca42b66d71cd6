use squeezelite_mpris::launch::{player_command, LaunchError};

fn line(words: &[&str]) -> Vec<String> {
    words.iter().map(|word| word.to_string()).collect()
}

#[test]
fn default_command() {
    let command = player_command(
        &line(&["squeezelite-pulse", "-n", "{name}", "-s", "{server}"]),
        "SqueezeLite",
        "192.168.1.10",
    )
    .unwrap();
    assert_eq!(command.program, "squeezelite-pulse");
    assert_eq!(command.arguments, ["-n", "SqueezeLite", "-s", "192.168.1.10"]);
}

#[test]
fn placeholders_inside_words_and_more_than_once() {
    let command = player_command(
        &line(&["player", "--name={name}", "--url=http://{server}:9000/{name}/{name}", "-v"]),
        "Den",
        "lms",
    )
    .unwrap();
    assert_eq!(command.program, "player");
    assert_eq!(command.arguments, ["--name=Den", "--url=http://lms:9000/Den/Den", "-v"]);
}

#[test]
fn both_placeholders_in_one_word() {
    let command = player_command(&line(&["player", "{name}@{server}"]), "Den", "lms").unwrap();
    assert_eq!(command.arguments, ["Den@lms"]);
}

#[test]
fn name_is_filled_in_before_the_server() {
    let command =
        player_command(&line(&["player", "{name}", "{server}"]), "{server}", "lms").unwrap();
    assert_eq!(command.arguments, ["lms", "lms"]);
    let command =
        player_command(&line(&["player", "{name}", "{server}"]), "Den", "{name}").unwrap();
    assert_eq!(command.arguments, ["Den", "{name}"]);
}

#[test]
fn program_is_taken_as_it_is() {
    let command =
        player_command(&line(&["{name}-{server}", "{name}", "{server}"]), "Den", "lms").unwrap();
    assert_eq!(command.program, "{name}-{server}");
    assert_eq!(command.arguments, ["Den", "lms"]);
}

#[test]
fn no_command() {
    assert!(matches!(player_command(&line(&[]), "Den", "lms"), Err(LaunchError::NoCommand)));
}

#[test]
fn no_name() {
    for words in [
        &["player"][..],
        &["player", "-s", "{server}"],
        &["{name}", "-s", "{server}"],
        &["player", "{ name }", "{Name}", "name", "{server}"],
    ] {
        assert!(matches!(
            player_command(&line(words), "Den", "lms"),
            Err(LaunchError::MissingName)
        ));
    }
}

#[test]
fn no_server() {
    for words in [
        &["player", "-n", "{name}"][..],
        &["{server}", "-n", "{name}"],
        &["player", "{name}", "{serve}", "server"],
    ] {
        assert!(matches!(
            player_command(&line(words), "Den", "lms"),
            Err(LaunchError::MissingServer)
        ));
    }
}
