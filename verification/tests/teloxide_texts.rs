use bookclub::telegram::command::{Command, ParseError};
use bookclub::text::{chars_of, eq_ignore_ascii_case};
use teloxide::utils::command::{CommandDescription, CommandDescriptions};

#[test]
fn help_text_is_what_teloxide_writes() {
    let descriptions = [
        CommandDescription {
            prefix: "/",
            command: "echo",
            aliases: &[],
            description: "echo the text",
        },
        CommandDescription {
            prefix: "/",
            command: "polldate",
            aliases: &[],
            description: "create a poll for dates between start and end",
        },
        CommandDescription {
            prefix: "/",
            command: "help",
            aliases: &[],
            description: "display this text",
        },
    ];
    let written = CommandDescriptions::new(&descriptions)
        .global_description("These commands are supported:")
        .to_string();
    assert_eq!(Command::descriptions(), written);
}

#[test]
fn error_texts_are_what_teloxide_writes() {
    assert_eq!(
        ParseError::UnknownCommand("/nope".to_string()).message(),
        teloxide::utils::command::ParseError::UnknownCommand("/nope".to_string()).to_string()
    );
    assert_eq!(
        ParseError::WrongBotName("other".to_string()).message(),
        teloxide::utils::command::ParseError::WrongBotName("other".to_string()).to_string()
    );
    assert_eq!(
        ParseError::Custom("dates must be separated by 'to'".to_string()).message(),
        teloxide::utils::command::ParseError::Custom("dates must be separated by 'to'".into()).to_string()
    );
}

#[test]
fn bot_names_compare_as_in_std() {
    let names = ["clubbot", "ClubBot", "CLUBBOT", "clubbo", "clubbot_", "çlubbot", "ÇLUBBOT", ""];
    for a in names {
        for b in names {
            assert_eq!(
                eq_ignore_ascii_case(&chars_of(a), &chars_of(b)),
                a.eq_ignore_ascii_case(b),
                "{a:?} {b:?}"
            );
        }
    }
}
