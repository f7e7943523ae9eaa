use twitchy_mojo::commands::{all_commands, BotCommand};
use twitchy_mojo::config::{Config, ConfigError};
use twitchy_mojo::dispatch::{reply_for, CommandInvocation, DispatchError};
use twitchy_mojo::events::{process_event, ChatMessage, EventOutcome, ServerEvent};
use twitchy_mojo::extract::{extract_candidate, starts_with_str, to_lowercase_str};
use twitchy_mojo::pipeline::handle_chat_message;
use twitchy_mojo::resolve::resolve;

fn privmsg(text: &str) -> ServerEvent {
    ServerEvent::Privmsg(ChatMessage {
        message_text: String::from(text),
        sender: String::from("someone"),
        channel: String::from("somewhere"),
    })
}

#[test]
fn non_prefixed_message_is_ignored() {
    let r = handle_chat_message("hello there", "!", "1.2.3", false);
    assert_eq!(r, Ok(None));
    match process_event(privmsg("hello there"), "!", "1.2.3", false) {
        EventOutcome::NoReply => {}
        _ => panic!("expected no reply"),
    }
}

#[test]
fn message_equal_to_prefix_is_no_command() {
    let r = handle_chat_message("!", "!", "1.2.3", false);
    assert_eq!(r, Ok(None));
}

#[test]
fn ping_replies_pong() {
    let r = handle_chat_message("!ping", "!", "1.2.3", false);
    assert_eq!(r, Ok(Some(String::from("Pong!"))));
    match process_event(privmsg("!ping"), "!", "1.2.3", false) {
        EventOutcome::Reply(cmd, s) => {
            assert_eq!(cmd, BotCommand::Ping);
            assert_eq!(s, "Pong!");
        }
        _ => panic!("expected a reply"),
    }
}

#[test]
fn ping_matches_by_prefix_not_equality() {
    let r = handle_chat_message("!pingxyz", "!", "1.2.3", false);
    assert_eq!(r, Ok(Some(String::from("Pong!"))));
    assert_eq!(resolve("pingpong"), Some(BotCommand::Ping));
}

#[test]
fn resolution_is_case_insensitive() {
    let r = handle_chat_message("!PING", "!", "1.2.3", false);
    assert_eq!(r, Ok(Some(String::from("Pong!"))));
    let r = handle_chat_message("!PiNgPoNg", "!", "1.2.3", false);
    assert_eq!(r, Ok(Some(String::from("Pong!"))));
}

#[test]
fn about_reports_version_and_debug_mode() {
    let r = handle_chat_message("!about", "!", "1.2.3", false);
    assert_eq!(r, Ok(Some(String::from("Version: 1.2.3 - Debug mode: Off"))));
    let r = handle_chat_message("!about", "!", "0.1.0", true);
    assert_eq!(r, Ok(Some(String::from("Version: 0.1.0 - Debug mode: On"))));
    match handle_chat_message("!about", "!", "9.8.7", false) {
        Ok(Some(s)) => {
            assert!(s.starts_with("Version: "));
            assert!(!s["Version: ".len()..].starts_with(" -"));
            assert!(s.ends_with(" - Debug mode: Off"));
        }
        _ => panic!("expected a reply"),
    }
}

#[test]
fn unknown_command_is_no_command() {
    let r = handle_chat_message("!xyz", "!", "1.2.3", false);
    assert_eq!(r, Ok(None));
    assert_eq!(resolve("xyz"), None);
}

#[test]
fn resolution_is_deterministic() {
    let a = resolve("pingabc");
    let b = resolve("pingabc");
    assert_eq!(a, b);
    assert_eq!(a, Some(BotCommand::Ping));
    assert_eq!(resolve(""), resolve(""));
}

#[test]
fn earlier_declared_command_wins() {
    let cmds = all_commands();
    assert_eq!(
        cmds,
        vec![
            BotCommand::Ping,
            BotCommand::Help,
            BotCommand::Quote,
            BotCommand::About
        ]
    );
    // "pinghelp" starts with the names of no two commands at once today,
    // but it does start with "ping", declared first: the walk in
    // declaration order returns Ping before ever testing "help".
    assert_eq!(resolve("pinghelp"), Some(BotCommand::Ping));
}

#[test]
fn unimplemented_commands_fail_distinctly() {
    assert_eq!(
        handle_chat_message("!help", "!", "1.2.3", false),
        Err(DispatchError::NotImplemented)
    );
    assert_eq!(
        handle_chat_message("!quote", "!", "1.2.3", false),
        Err(DispatchError::NotImplemented)
    );
    match process_event(privmsg("!help"), "!", "1.2.3", false) {
        EventOutcome::Failed(cmd, e) => {
            assert_eq!(cmd, BotCommand::Help);
            assert_eq!(e, DispatchError::NotImplemented);
        }
        _ => panic!("expected a failure"),
    }
    assert_eq!(
        reply_for(BotCommand::Quote, "1.2.3", true),
        Err(DispatchError::NotImplemented)
    );
}

#[test]
fn an_invocation_dispatches_by_its_command_alone() {
    let invocation = CommandInvocation {
        command: BotCommand::Ping,
        message: ChatMessage {
            message_text: String::from("!ping and more"),
            sender: String::from("someone"),
            channel: String::from("somewhere"),
        },
    };
    assert_eq!(invocation.dispatch("1.2.3", false), Ok(String::from("Pong!")));
    let invocation = CommandInvocation {
        command: BotCommand::Help,
        message: ChatMessage {
            message_text: String::from("!help"),
            sender: String::from("someone"),
            channel: String::from("somewhere"),
        },
    };
    assert_eq!(
        invocation.dispatch("1.2.3", false),
        Err(DispatchError::NotImplemented)
    );
}

#[test]
fn non_chat_events_are_discarded_with_their_tag() {
    let cases = [
        (ServerEvent::ClearChat, "ClearChat"),
        (ServerEvent::ClearMsg, "ClearMsg"),
        (ServerEvent::GlobalUserState, "GlobalUserState"),
        (ServerEvent::Join, "Join"),
        (ServerEvent::Notice, "Notice"),
        (ServerEvent::Part, "Part"),
        (ServerEvent::Ping, "Ping"),
        (ServerEvent::Pong, "Pong"),
        (ServerEvent::Reconnect, "Reconnect"),
        (ServerEvent::RoomState, "RoomState"),
        (ServerEvent::UserNotice, "UserNotice"),
        (ServerEvent::UserState, "UserState"),
        (ServerEvent::Whisper, "Whisper"),
        (ServerEvent::Other, "Other"),
    ];
    for (event, tag) in cases {
        match process_event(event, "!", "1.2.3", false) {
            EventOutcome::Discarded(l) => assert_eq!(l, tag),
            _ => panic!("expected the event to be discarded"),
        }
    }
}

#[test]
fn a_ping_event_is_not_a_ping_command() {
    match process_event(ServerEvent::Ping, "!", "1.2.3", false) {
        EventOutcome::Discarded(l) => assert_eq!(l, "Ping"),
        _ => panic!("expected the event to be discarded"),
    }
}

#[test]
fn extraction_strips_prefix_and_lowercases() {
    assert_eq!(extract_candidate("!PingXYZ", "!"), Some(String::from("pingxyz")));
    assert_eq!(extract_candidate("no bang", "!"), None);
    assert_eq!(extract_candidate("!", "!"), Some(String::from("")));
    assert_eq!(extract_candidate("?ping", "?"), Some(String::from("ping")));
    assert_eq!(extract_candidate("!ping", "?"), None);
}

#[test]
fn custom_prefix_is_honoured() {
    let r = handle_chat_message("?ping", "?", "1.2.3", false);
    assert_eq!(r, Ok(Some(String::from("Pong!"))));
    let r = handle_chat_message("!ping", "?", "1.2.3", false);
    assert_eq!(r, Ok(None));
}

#[test]
fn multibyte_text_is_handled_per_character() {
    assert_eq!(handle_chat_message("¡ping", "!", "1.2.3", false), Ok(None));
    assert_eq!(
        handle_chat_message("¡ping", "¡", "1.2.3", false),
        Ok(Some(String::from("Pong!")))
    );
    assert_eq!(extract_candidate("¡PING", "¡"), Some(String::from("ping")));
}

#[test]
fn prefix_longer_than_text_is_no_command() {
    assert_eq!(handle_chat_message("!", "!!", "1.2.3", false), Ok(None));
    assert!(!starts_with_str("!", "!!"));
}

#[test]
fn lowercasing_maps_ascii_uppercase_only() {
    assert_eq!(to_lowercase_str("AbC123!Ü"), "abc123!Ü");
    assert_eq!(to_lowercase_str(""), "");
    assert_eq!(to_lowercase_str("PONG"), "pong");
}

#[test]
fn prefix_test_agrees_with_str_starts_with() {
    assert!(starts_with_str("!ping", "!"));
    assert!(starts_with_str("abc", ""));
    assert!(starts_with_str("abc", "abc"));
    assert!(!starts_with_str("abc", "abd"));
    assert!(!starts_with_str("", "a"));
}

#[test]
fn command_names_are_their_lowercase_forms() {
    assert_eq!(BotCommand::Ping.name(), "ping");
    assert_eq!(BotCommand::Help.name(), "help");
    assert_eq!(BotCommand::Quote.name(), "quote");
    assert_eq!(BotCommand::About.name(), "about");
}

#[test]
fn missing_required_configuration_is_fatal_in_order() {
    let some = |s: &str| Some(String::from(s));
    assert_eq!(
        Config::from_values(None, some("tok"), some("chan"), None),
        Err(ConfigError::MissingUsername)
    );
    assert_eq!(
        Config::from_values(some("bot"), None, some("chan"), None),
        Err(ConfigError::MissingToken)
    );
    assert_eq!(
        Config::from_values(some("bot"), some("tok"), None, None),
        Err(ConfigError::MissingChannel)
    );
    assert_eq!(
        Config::from_values(None, None, None, None),
        Err(ConfigError::MissingUsername)
    );
}

#[test]
fn configuration_defaults_the_prefix() {
    let some = |s: &str| Some(String::from(s));
    let c = Config::from_values(some("bot"), some("tok"), some("chan"), None).unwrap();
    assert_eq!(c.bot_username, "bot");
    assert_eq!(c.oauth_token, "tok");
    assert_eq!(c.channel, "chan");
    assert_eq!(c.prefix, "!");
    let c = Config::from_values(some("bot"), some("tok"), some("chan"), some("?")).unwrap();
    assert_eq!(c.prefix, "?");
}
