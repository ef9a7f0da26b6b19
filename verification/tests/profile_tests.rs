use bot_rs_core::auth::{Credentials, Platform};
use bot_rs_core::command_access::AccessRights;
use bot_rs_core::profile::{Configs, Profile, ProfileError, Profiles};

fn profile(name: &str) -> Profile {
    Profile::new(
        name.to_string(),
        vec![format!("#{}", name)],
        "clientid".to_string(),
        None,
    )
}

#[test]
fn profile_holds_its_configuration() {
    let p = profile("alice");
    assert_eq!(p.get_channels(), &vec!["#alice".to_string()]);
    assert_eq!(p.get_client_id(), "clientid");
    assert_eq!(p.get_client_secret(), None);
    // A fresh profile carries exactly the default access rights.
    assert_eq!(p.rights(), &AccessRights::new());
}

#[test]
fn profile_credentials_per_platform() {
    let mut p = profile("alice");
    assert_eq!(p.get_credentials(&Platform::Twitch), None);
    p.set_credentials(
        Platform::Twitch,
        Credentials::OAuthToken {
            token: "one".to_string(),
        },
    );
    assert_eq!(
        p.get_credentials(&Platform::Twitch),
        Some(&Credentials::OAuthToken {
            token: "one".to_string()
        })
    );
    // Overwrites the platform's credentials.
    p.set_credentials(
        Platform::Twitch,
        Credentials::OAuthToken {
            token: "two".to_string(),
        },
    );
    assert_eq!(
        p.get_credentials(&Platform::Twitch),
        Some(&Credentials::OAuthToken {
            token: "two".to_string()
        })
    );
}

#[test]
fn profile_add_channels_appends() {
    let mut p = profile("alice");
    p.add_channels(vec!["#second".to_string(), "#third".to_string()]);
    assert_eq!(
        p.get_channels(),
        &vec![
            "#alice".to_string(),
            "#second".to_string(),
            "#third".to_string()
        ]
    );
}

#[test]
fn profile_paths() {
    let configs = Configs::new("/home/bot/.config/botrs".to_string());
    let p = profile("alice");
    assert_eq!(p.path(&configs), "/home/bot/.config/botrs/profiles/alice");
    assert_eq!(
        p.plugins_path(&configs),
        "/home/bot/.config/botrs/profiles/alice/plugins"
    );
}

#[test]
fn configs_paths() {
    let configs = Configs::new("/cfg".to_string());
    assert_eq!(configs.profiles_dir(), "/cfg/profiles");
    assert_eq!(configs.log_path(), "/cfg/log");
    assert_eq!(configs.stats_path(), "/cfg/stats");
}

#[test]
fn profiles_refuse_duplicate_names() {
    let mut profiles = Profiles::new();
    assert_eq!(profiles.add(profile("alice")), Ok(()));
    assert_eq!(profiles.add(profile("bob")), Ok(()));
    assert_eq!(
        profiles.add(profile("alice")),
        Err(ProfileError::AlreadyExists("alice".to_string()))
    );
    assert_eq!(profiles.iter().len(), 2);
    assert!(profiles.get("alice").is_some());
    assert!(profiles.get("carol").is_none());
}

#[test]
fn profiles_delete_forgets_one_name() {
    let mut profiles = Profiles::new();
    profiles.add(profile("alice")).unwrap();
    profiles.add(profile("bob")).unwrap();
    assert_eq!(profiles.delete("alice"), Ok(()));
    assert!(profiles.get("alice").is_none());
    assert!(profiles.get("bob").is_some());
    // Deleting an unknown name is not an error.
    assert_eq!(profiles.delete("carol"), Ok(()));
}
