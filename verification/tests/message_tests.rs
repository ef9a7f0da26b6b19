use bot_rs_core::message::{FormatError, IrcMessage, Message, MAX_MESSAGE_BYTES};
use bot_rs_core::plugin::PluginInfo;
use bot_rs_core::twitch_extensions::irc::GetPropertyError;

#[test]
fn renders_a_full_line() {
    let message = Message::Irc(
        IrcMessage::new("PRIVMSG")
            .tag("badges", "broadcaster/1")
            .tag("color", "#FF0000")
            .prefix("nick", Some("user".to_string()), Some("host".to_string()))
            .param("#channel")
            .trailing("hello world"),
    );
    assert_eq!(
        message.to_line().unwrap(),
        "@badges=broadcaster/1;color=#FF0000 :nick!user@host PRIVMSG #channel :hello world"
    );
}

#[test]
fn renders_a_bare_command() {
    let message = Message::Irc(IrcMessage::new("PING"));
    assert_eq!(message.to_line().unwrap(), "PING");
}

#[test]
fn long_lines_are_an_error_never_truncated() {
    // A command of exactly the ceiling fits; one byte more is refused with
    // the offending length.
    let fitting = Message::Irc(IrcMessage::new(&"A".repeat(MAX_MESSAGE_BYTES)));
    assert_eq!(fitting.to_line().unwrap().len(), MAX_MESSAGE_BYTES);

    let too_long = Message::Irc(IrcMessage::new(&"A".repeat(MAX_MESSAGE_BYTES + 1)));
    assert_eq!(
        too_long.to_line(),
        Err(FormatError {
            length: MAX_MESSAGE_BYTES + 1
        })
    );
}

#[test]
fn byte_length_counts_bytes_not_characters() {
    // 256 two-byte characters plus one byte over the ceiling.
    let trailing = "é".repeat(256);
    let message = Message::Irc(IrcMessage::new("A").trailing(&trailing));
    // "A :" + 512 bytes of trailing = 515 bytes.
    assert_eq!(message.to_line(), Err(FormatError { length: 515 }));
}

#[test]
fn tag_lookup_finds_first_match() {
    let message = IrcMessage::new("PRIVMSG")
        .tag("badges", "a/1")
        .tag("badges", "b/2");
    assert_eq!(message.get_tag("badges"), Some(&"a/1".to_string()));
    assert_eq!(message.get_tag("absent"), None);
}

#[test]
fn privmsg_accepts_only_privmsg_lines() {
    let message = Message::Irc(IrcMessage::new("privmsg").trailing("hi"));
    let privmsg = message.into_privmsg().unwrap();
    assert_eq!(privmsg.message(), Ok(&"hi".to_string()));

    let ping = Message::Irc(IrcMessage::new("PING"));
    let error = ping.into_privmsg().unwrap_err();
    assert_eq!(error.0, "PRIVMSG");
    assert_eq!(error.1, "PING");
}

#[test]
fn privmsg_properties() {
    let message = Message::Irc(
        IrcMessage::new("PRIVMSG")
            .tag("badges", "broadcaster/1,subscriber/12")
            .tag("user-id", "99")
            .prefix("alice", None, None)
            .param("#chat")
            .trailing("!roll"),
    );
    let privmsg = message.into_privmsg().unwrap();
    assert_eq!(
        privmsg.badges(),
        Ok(vec!["broadcaster/1".to_string(), "subscriber/12".to_string()])
    );
    assert_eq!(privmsg.user_id(), Ok(&"99".to_string()));
    assert_eq!(privmsg.username(), Ok(&"alice".to_string()));
    assert_eq!(privmsg.channel(), Ok(&"#chat".to_string()));
    assert_eq!(privmsg.message(), Ok(&"!roll".to_string()));
    let user = privmsg.to_user_info().unwrap();
    assert_eq!(user.get_platform_name(), Some(&"alice".to_string()));
    assert_eq!(user.get_platform_id(), Some(&"99".to_string()));
}

#[test]
fn privmsg_missing_properties() {
    let message = Message::Irc(IrcMessage::new("PRIVMSG"));
    let privmsg = message.into_privmsg().unwrap();
    assert_eq!(privmsg.badges(), Err(GetPropertyError::MissingTags));
    assert_eq!(privmsg.username(), Err(GetPropertyError::MissingPrefix));
    assert_eq!(
        privmsg.channel(),
        Err(GetPropertyError::MissingParam {
            index: 0,
            name: "channel".to_string()
        })
    );
    assert_eq!(privmsg.message(), Err(GetPropertyError::MissingTrailingParam));

    let message = Message::Irc(IrcMessage::new("PRIVMSG").tag("color", "#FF0000"));
    let privmsg = message.into_privmsg().unwrap();
    assert_eq!(
        privmsg.bits(),
        Err(GetPropertyError::MissingTag("bits".to_string()))
    );
    assert_eq!(privmsg.color(), Ok(&"#FF0000".to_string()));
}

#[test]
fn plugin_info_describe() {
    let info = PluginInfo {
        name: "Hello Plugin".to_string(),
        version: "1.2.0".to_string(),
        authors: "alice".to_string(),
        repo: Some("https://example.invalid/hello".to_string()),
        commands: vec!["!hello".to_string(), "!bye".to_string()],
    };
    assert_eq!(
        info.describe(),
        "Hello Plugin v1.2.0 [https://example.invalid/hello]\nAuthors: alice\nCommands: [!hello, !bye]"
    );
    let bare = PluginInfo {
        name: "Quiet".to_string(),
        version: "0.1.0".to_string(),
        authors: "".to_string(),
        repo: None,
        commands: vec![],
    };
    assert_eq!(bare.describe(), "Quiet v0.1.0\nAuthors: \nCommands: None");
}
