use bot_rs_core::message::{IrcMessage, Message};
use bot_rs_core::plugin::{
    CommandDeclaration, InvocationError, Plugin, PluginProxy, PluginRegistrar, SamplePlugin,
};
use bot_rs_core::plugins::{
    has_library_extension, validate_declaration, AbiField, FileEntry, FileOutcome, LoadError,
    Plugins,
};
use bot_rs_core::stream::{delivery_schedule, run_call_stream, Delivery};

fn message(text: &str) -> Message {
    Message::Irc(IrcMessage::new("PRIVMSG").param("#chat").trailing(text))
}

fn host_declaration() -> CommandDeclaration {
    CommandDeclaration {
        rustc_version: bot_rs_core::RUSTC_VERSION.to_string(),
        core_version: bot_rs_core::CORE_VERSION.to_string(),
    }
}

fn echo_host(count: usize) -> Plugins<SamplePlugin> {
    let mut host: Plugins<SamplePlugin> = Plugins::new();
    for _ in 0..count {
        host.commands.push(PluginProxy {
            plugin: SamplePlugin::Echo,
            library: None,
        });
    }
    host
}

#[test]
fn zero_plugins_forward_nothing() {
    // Scenario: no plugins, one inbound message, stream closed.
    let host = echo_host(0);
    let (batches, result) = host.stream(&vec![message("hello")]);
    assert!(batches.is_empty());
    assert_eq!(result, Ok(()));
}

#[test]
fn three_echo_plugins_answer_three_copies() {
    // Scenario: three identical echo plugins, one inbound message.
    let host = echo_host(3);
    let m = message("hello");
    let (batches, result) = host.stream(&vec![m.clone()]);
    assert_eq!(result, Ok(()));
    assert_eq!(batches.len(), 3);
    for batch in &batches {
        assert_eq!(batch, &vec![m.clone()]);
    }
}

#[test]
fn echo_host_sized_by_plugin_count() {
    let m = message("ping");
    for n in 0..6 {
        let host = echo_host(n);
        let (batches, result) = host.stream(&vec![m.clone()]);
        assert_eq!(result, Ok(()));
        assert_eq!(batches.len(), n);
        assert!(batches.iter().all(|b| b == &vec![m.clone()]));
    }
}

#[test]
fn one_echo_plugin_preserves_order() {
    let host = echo_host(1);
    let m1 = message("first");
    let m2 = message("second");
    let (batches, result) = host.stream(&vec![m1.clone(), m2.clone()]);
    assert_eq!(result, Ok(()));
    assert_eq!(batches, vec![vec![m1], vec![m2]]);
}

#[test]
fn delivery_is_gated_per_message() {
    // Scenario: two messages, two plugins. Every delivery of the first
    // message completes before any delivery of the second: a slow plugin
    // holds the second message back even from fast siblings.
    let schedule = delivery_schedule(2, 2);
    assert_eq!(
        schedule,
        vec![
            Delivery { message: 0, plugin: 0 },
            Delivery { message: 0, plugin: 1 },
            Delivery { message: 1, plugin: 0 },
            Delivery { message: 1, plugin: 1 },
        ]
    );
}

#[test]
fn fan_out_hands_every_plugin_the_whole_inbound() {
    let host = echo_host(3);
    let inbound = vec![message("a"), message("b")];
    let queues = host.fan_out(&inbound);
    assert_eq!(queues.len(), 3);
    for queue in &queues {
        assert_eq!(queue, &inbound);
    }
}

#[test]
fn silent_plugin_emits_empty_batches() {
    let plugin = SamplePlugin::Silent;
    let (batches, result) = run_call_stream(&plugin, &vec![message("a"), message("b")]);
    assert_eq!(result, Ok(()));
    assert_eq!(batches, vec![Vec::<Message>::new(), Vec::<Message>::new()]);
}

#[test]
fn failing_plugin_stops_at_first_error() {
    let error = InvocationError::Other {
        msg: "boom".to_string(),
    };
    let plugin = SamplePlugin::Fail(error.clone());
    let (batches, result) = run_call_stream(&plugin, &vec![message("a"), message("b")]);
    assert!(batches.is_empty());
    assert_eq!(result, Err(error));
}

#[test]
fn host_reports_first_error_by_position() {
    let e1 = InvocationError::Other {
        msg: "first".to_string(),
    };
    let e2 = InvocationError::InvalidArgumentCount {
        expected: 2,
        found: 0,
    };
    let mut host: Plugins<SamplePlugin> = Plugins::new();
    host.commands.push(PluginProxy {
        plugin: SamplePlugin::Echo,
        library: None,
    });
    host.commands.push(PluginProxy {
        plugin: SamplePlugin::Fail(e1.clone()),
        library: None,
    });
    host.commands.push(PluginProxy {
        plugin: SamplePlugin::Fail(e2),
        library: None,
    });
    let m = message("go");
    let (batches, result) = host.stream(&vec![m.clone()]);
    // The echo plugin still ran to completion; the host reports the first
    // error by position in the proxy list.
    assert_eq!(batches, vec![vec![m]]);
    assert_eq!(result, Err(e1));
}

#[test]
fn host_acts_as_one_plugin() {
    let mut host: Plugins<SamplePlugin> = Plugins::new();
    host.commands.push(PluginProxy {
        plugin: SamplePlugin::Echo,
        library: None,
    });
    host.commands.push(PluginProxy {
        plugin: SamplePlugin::Silent,
        library: None,
    });
    host.commands.push(PluginProxy {
        plugin: SamplePlugin::Echo,
        library: None,
    });
    let m = message("ping");
    assert_eq!(host.call(&m), Ok(vec![m.clone(), m.clone()]));
    // The host's descriptor names the host itself, never its plugins'
    // command surface.
    let info = host.info();
    assert_eq!(info.name, "Bot-RS Core");
    assert_eq!(info.version, bot_rs_core::CORE_VERSION);
    assert!(info.commands.is_empty());
    assert_eq!(info.repo, None);
}

#[test]
fn proxy_forwards_the_descriptor() {
    let proxy = PluginProxy {
        plugin: SamplePlugin::Echo,
        library: None,
    };
    assert_eq!(proxy.info(), SamplePlugin::Echo.info());
    assert_eq!(proxy.info().name, "Sample Plugin");
}

#[test]
fn registrar_binds_plugins_to_its_library() {
    let mut registrar: PluginRegistrar<SamplePlugin> = PluginRegistrar::new(Some(0));
    registrar.register(SamplePlugin::Echo);
    registrar.register(SamplePlugin::Silent);
    assert_eq!(registrar.commands.len(), 2);
    assert_eq!(registrar.commands[0].library, Some(0));
    assert_eq!(registrar.commands[1].library, Some(0));
}

#[test]
fn validate_declaration_checks_both_fields() {
    let host = host_declaration();
    assert_eq!(validate_declaration(&host, &host_declaration()), Ok(()));

    let bad_rustc = CommandDeclaration {
        rustc_version: "rustc 0.0.0".to_string(),
        core_version: bot_rs_core::CORE_VERSION.to_string(),
    };
    let mismatch = validate_declaration(&host, &bad_rustc).unwrap_err();
    assert_eq!(mismatch.field, AbiField::Compiler);
    assert_eq!(mismatch.expected, bot_rs_core::RUSTC_VERSION);
    assert_eq!(mismatch.found, "rustc 0.0.0");

    let bad_core = CommandDeclaration {
        rustc_version: bot_rs_core::RUSTC_VERSION.to_string(),
        core_version: "9.9.9".to_string(),
    };
    let mismatch = validate_declaration(&host, &bad_core).unwrap_err();
    assert_eq!(mismatch.field, AbiField::Core);
    assert_eq!(mismatch.expected, bot_rs_core::CORE_VERSION);
    assert_eq!(mismatch.found, "9.9.9");
}

#[test]
fn library_extension_decides_candidates() {
    assert!(has_library_extension("plugin.so"));
    assert!(has_library_extension("plugin.dll"));
    assert!(!has_library_extension("plugin.txt"));
    assert!(!has_library_extension("so"));
}

#[test]
fn load_dir_requires_a_directory() {
    let host_decl = host_declaration();
    let mut host: Plugins<SamplePlugin> = Plugins::new();
    let result = host.load_dir(&host_decl, false, Vec::new());
    assert_eq!(result, Err(LoadError::NotADirectory));
    assert!(host.commands.is_empty());
}

#[test]
fn load_dir_skips_non_plugins_and_keeps_valid_ones() {
    // Scenario: a directory holding one file without the ABI symbol and one
    // valid plugin file: only the valid file registers, and the other
    // produces no error.
    let host_decl = host_declaration();
    let mut host: Plugins<SamplePlugin> = Plugins::new();
    let entries = vec![
        FileEntry::File {
            name: "libc.so".to_string(),
            symbol: None,
        },
        FileEntry::File {
            name: "plugin.so".to_string(),
            symbol: Some((host_declaration(), vec![SamplePlugin::Echo])),
        },
    ];
    let outcomes = host.load_dir(&host_decl, true, entries).unwrap();
    assert_eq!(
        outcomes,
        vec![FileOutcome::SkippedNoSymbol, FileOutcome::Loaded { plugins: 1 }]
    );
    assert_eq!(host.commands.len(), 1);
    assert_eq!(host.commands[0].plugin, SamplePlugin::Echo);
    assert_eq!(host.commands[0].library, Some(0));
    assert_eq!(host.libraries.len(), 1);
    assert_eq!(host.libraries[0].name, "plugin.so");
}

#[test]
fn load_dir_isolates_a_rejected_file() {
    // A file with a mismatched declaration is rejected with both values, and
    // its siblings still load.
    let host_decl = host_declaration();
    let mut host: Plugins<SamplePlugin> = Plugins::new();
    let stale = CommandDeclaration {
        rustc_version: "rustc 0.0.0".to_string(),
        core_version: bot_rs_core::CORE_VERSION.to_string(),
    };
    let entries = vec![
        FileEntry::NotAFile {
            name: "subdir".to_string(),
        },
        FileEntry::Unreadable {
            name: "broken.so".to_string(),
        },
        FileEntry::File {
            name: "notes.txt".to_string(),
            symbol: None,
        },
        FileEntry::File {
            name: "stale.so".to_string(),
            symbol: Some((stale, vec![SamplePlugin::Echo])),
        },
        FileEntry::File {
            name: "good.so".to_string(),
            symbol: Some((host_declaration(), vec![SamplePlugin::Echo, SamplePlugin::Silent])),
        },
    ];
    let outcomes = host.load_dir(&host_decl, true, entries).unwrap();
    assert_eq!(outcomes.len(), 5);
    assert_eq!(outcomes[0], FileOutcome::SkippedNotAFile);
    assert_eq!(outcomes[1], FileOutcome::SkippedUnreadable);
    assert_eq!(outcomes[2], FileOutcome::SkippedExtension);
    match &outcomes[3] {
        FileOutcome::Rejected(mismatch) => {
            assert_eq!(mismatch.field, AbiField::Compiler);
            assert_eq!(mismatch.expected, bot_rs_core::RUSTC_VERSION);
            assert_eq!(mismatch.found, "rustc 0.0.0");
        }
        other => panic!("expected a rejection, got: {:?}", other),
    }
    assert_eq!(outcomes[4], FileOutcome::Loaded { plugins: 2 });
    assert_eq!(host.commands.len(), 2);
    assert_eq!(host.libraries.len(), 1);
    assert_eq!(host.libraries[0].name, "good.so");
    assert_eq!(host.commands[0].library, Some(0));
}

#[test]
fn sample_plugin_call_shapes() {
    let m = message("x");
    assert_eq!(SamplePlugin::Echo.call(&m), Ok(vec![m.clone()]));
    assert_eq!(SamplePlugin::Silent.call(&m), Ok(vec![]));
    let e = InvocationError::InvalidArgumentCount {
        expected: 1,
        found: 3,
    };
    assert_eq!(SamplePlugin::Fail(e.clone()).call(&m), Err(e));
}

#[test]
fn invocation_error_wraps_messages() {
    assert_eq!(
        InvocationError::from("went wrong".to_string()),
        InvocationError::Other {
            msg: "went wrong".to_string()
        }
    );
}
