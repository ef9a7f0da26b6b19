use bot_rs_core::command_access::{AccessFilter, AccessRights};
use bot_rs_core::message::{IrcMessage, Message};

#[test]
fn test_badge_filter() {
    let badge_filter = AccessFilter::Badge("moderator/*".to_string());

    let message = Message::Irc(IrcMessage::new("PRIVMSG").tag("badges", "moderator/1"));
    assert!(badge_filter.handles(&message));
    assert!(badge_filter.matches(&message));

    let message = Message::Irc(IrcMessage::new("PRIVMSG").tag("badges", "subscriber/1"));
    assert!(badge_filter.handles(&message));
    assert!(!badge_filter.matches(&message));

    let message = Message::Irc(IrcMessage::new("PRIVMSG"));
    assert!(!badge_filter.handles(&message));
    assert!(!badge_filter.matches(&message));
}

#[test]
fn test_trailing_filter() {
    let trailing_filter = AccessFilter::Trailing("^!command$".to_string());

    let message = Message::Irc(IrcMessage::new("PRIVMSG").trailing("!command"));
    assert!(trailing_filter.handles(&message));
    assert!(trailing_filter.matches(&message));

    let message = Message::Irc(IrcMessage::new("PRIVMSG").trailing("Invalid"));
    assert!(trailing_filter.handles(&message));
    assert!(!trailing_filter.matches(&message));

    let message = Message::Irc(IrcMessage::new("PRIVMSG"));
    assert!(!trailing_filter.handles(&message));
}

#[test]
fn test_all_filter() {
    let all_filter = AccessFilter::All(vec![
        AccessFilter::Badge("moderator/*".to_string()),
        AccessFilter::Trailing("^hello, world!$".to_string()),
    ]);

    // Everything as expected
    let message = Message::Irc(
        IrcMessage::new("PRIVMSG")
            .trailing("hello, world!")
            .tag("badges", "moderator/1"),
    );
    assert!(all_filter.handles(&message));
    assert!(all_filter.matches(&message));

    // Handles but badge doesn't match
    let message = Message::Irc(
        IrcMessage::new("PRIVMSG")
            .trailing("hello, world!")
            .tag("badges", "broadcaster/1"),
    );
    assert!(all_filter.handles(&message));
    assert!(!all_filter.matches(&message));

    // Handles but trailing doesn't match
    let message = Message::Irc(
        IrcMessage::new("PRIVMSG")
            .trailing("hello, kevin!")
            .tag("badges", "moderator/1"),
    );
    assert!(all_filter.handles(&message));
    assert!(!all_filter.matches(&message));

    // Missing tag isn't handled
    let message = Message::Irc(IrcMessage::new("PRIVMSG").trailing("hello, world!"));
    assert!(!all_filter.handles(&message));

    // Missing trailing isn't handled
    let message = Message::Irc(IrcMessage::new("PRIVMSG").tag("badges", "moderator/1"));
    assert!(!all_filter.handles(&message));

    let message = Message::Irc(IrcMessage::new("PRIVMSG"));
    assert!(!all_filter.handles(&message));
}

#[test]
fn test_any_filter() {
    let any_filter = AccessFilter::Any(vec![
        AccessFilter::Badge("moderator/*".to_string()),
        AccessFilter::Trailing("^hello, world!$".to_string()),
    ]);

    // Everything as expected
    let message = Message::Irc(
        IrcMessage::new("PRIVMSG")
            .trailing("hello, world!")
            .tag("badges", "moderator/1"),
    );
    assert!(any_filter.handles(&message));
    assert!(any_filter.matches(&message));

    // Matches if any of the filters matches
    let message = Message::Irc(
        IrcMessage::new("PRIVMSG")
            .trailing("hello, world!")
            .tag("badges", "broadcaster/1"),
    );
    assert!(any_filter.handles(&message));
    assert!(any_filter.matches(&message));

    let message = Message::Irc(
        IrcMessage::new("PRIVMSG")
            .trailing("hello, kevin!")
            .tag("badges", "moderator/1"),
    );
    assert!(any_filter.handles(&message));
    assert!(any_filter.matches(&message));

    let message = Message::Irc(IrcMessage::new("PRIVMSG").trailing("hello, world!"));
    assert!(any_filter.handles(&message));
    assert!(any_filter.matches(&message));

    let message = Message::Irc(IrcMessage::new("PRIVMSG").tag("badges", "moderator/1"));
    assert!(any_filter.handles(&message));
    assert!(any_filter.matches(&message));

    let message = Message::Irc(IrcMessage::new("PRIVMSG"));
    assert!(!any_filter.handles(&message));
}

#[test]
fn test_broadcaster_badge_scenario() {
    let filter = AccessFilter::Badge("broadcaster/*".to_string());

    let message = Message::Irc(IrcMessage::new("PRIVMSG").tag("badges", "broadcaster/1"));
    assert!(filter.handles(&message));
    assert!(filter.matches(&message));

    let message = Message::Irc(IrcMessage::new("PRIVMSG").tag("badges", "subscriber/1"));
    assert!(filter.handles(&message));
    assert!(!filter.matches(&message));

    // No badge tag at all: the filter does not handle the message, so its
    // lone tri-state answer is "no opinion", not "denied".
    let message = Message::Irc(IrcMessage::new("PRIVMSG").trailing("hi"));
    assert!(!filter.handles(&message));
    let rights = AccessRights {
        filters: vec![AccessFilter::Badge("broadcaster/*".to_string())],
    };
    assert_eq!(rights.allowed(&message), None);
}

#[test]
fn test_allowed_tri_state() {
    let rights = AccessRights {
        filters: vec![
            AccessFilter::Badge("broadcaster/*".to_string()),
            AccessFilter::Trailing("^!go$".to_string()),
        ],
    };

    // No filter handles a message with neither badges nor trailing text.
    let message = Message::Irc(IrcMessage::new("PRIVMSG"));
    assert_eq!(rights.allowed(&message), None);

    // A handling filter that matches allows.
    let message = Message::Irc(IrcMessage::new("PRIVMSG").tag("badges", "broadcaster/1"));
    assert_eq!(rights.allowed(&message), Some(true));

    // Handling filters that all fail deny.
    let message = Message::Irc(
        IrcMessage::new("PRIVMSG")
            .tag("badges", "subscriber/1")
            .trailing("!stop"),
    );
    assert_eq!(rights.allowed(&message), Some(false));

    // No filters at all: never an opinion.
    assert_eq!(AccessRights::empty().allowed(&message), None);
}

#[test]
fn test_default_rights() {
    let rights = AccessRights::new();
    assert!(!rights.is_empty());
    assert_eq!(rights.iter().len(), 1);

    // The broadcaster passes.
    let message = Message::Irc(
        IrcMessage::new("PRIVMSG")
            .tag("badges", "broadcaster/1")
            .trailing("!restart"),
    );
    assert_eq!(rights.allowed(&message), Some(true));

    // A plain chat line from anyone passes: it invokes no command.
    let message = Message::Irc(IrcMessage::new("PRIVMSG").trailing("hello there"));
    assert_eq!(rights.allowed(&message), Some(true));

    // A command from someone without the broadcaster badge is denied.
    let message = Message::Irc(
        IrcMessage::new("PRIVMSG")
            .tag("badges", "subscriber/1")
            .trailing("!restart"),
    );
    assert_eq!(rights.allowed(&message), Some(false));

    assert!(AccessRights::empty().is_empty());
}

#[test]
fn test_filter_display() {
    let filter = AccessFilter::All(vec![
        AccessFilter::Badge("moderator/*".to_string()),
        AccessFilter::Trailing("^!go$".to_string()),
    ]);
    assert_eq!(
        filter.display_string(),
        "( 'moderator/*' Badge AND '^!go$' Trailing )"
    );
    let filter = AccessFilter::Any(vec![AccessFilter::Badge("vip/*".to_string())]);
    assert_eq!(filter.display_string(), "( 'vip/*' Badge )");
}
