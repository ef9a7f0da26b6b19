use bot_rs_core::auth::{Credentials, InvalidIrcMessageError, UserInfo};
use bot_rs_core::message::IrcMessage;
use bot_rs_core::twitch_api::auth::{
    accept_oauth_redirect, default_scopes, AuthRequest, TwitchAuthenticator, TwitchValidation,
};
use bot_rs_core::auth::ValidationError;

#[test]
fn test_credentials_from_str() {
    assert_eq!(
        Credentials::OAuthToken {
            token: "thisisatoken".to_string()
        }
        .display_string(),
        "oauth:thisisatoken"
    );
    assert_eq!(
        Credentials::parse("oauth:thisisatoken"),
        Credentials::OAuthToken {
            token: "thisisatoken".to_string()
        }
    );
}

#[test]
fn test_credentials_parse_unsupported() {
    assert_eq!(Credentials::parse("bearer abc"), Credentials::Missing);
    assert_eq!(Credentials::Missing.display_string(), "NONE");
}

#[test]
fn test_platform_name() {
    let userinfo = UserInfo::Twitch {
        name: "name".to_string(),
        id: "id".to_string(),
    };
    assert_eq!(userinfo.get_platform_name(), Some(&"name".to_string()));
}

#[test]
fn test_platform_id() {
    let userinfo = UserInfo::Twitch {
        name: "name".to_string(),
        id: "id".to_string(),
    };
    assert_eq!(userinfo.get_platform_id(), Some(&"id".to_string()));
}

#[test]
fn test_to_global_id() {
    let userinfo = UserInfo::Twitch {
        name: "name".to_string(),
        id: "42".to_string(),
    };
    assert_eq!(userinfo.to_global_id(), "twitch#42");
    assert_eq!(UserInfo::Unknown.to_global_id(), "");
}

#[test]
fn test_irc_no_tags() {
    let no_tags_message = IrcMessage::new("PRIVMSG");
    let result = UserInfo::try_from_irc(&no_tags_message);
    assert_eq!(result, Err(InvalidIrcMessageError::MissingTags));
}

#[test]
fn test_irc_no_userid() {
    let no_user_id = IrcMessage::new("PRIVMSG").tag("id", "messageid1");
    let result = UserInfo::try_from_irc(&no_user_id);
    assert_eq!(result, Err(InvalidIrcMessageError::MissingUserId));
}

#[test]
fn test_irc_no_prefix() {
    let no_user_id = IrcMessage::new("PRIVMSG").tag("user-id", "userid1");
    let result = UserInfo::try_from_irc(&no_user_id);
    assert_eq!(result, Err(InvalidIrcMessageError::MissingPrefix));
}

#[test]
fn test_irc_with_prefix() {
    let no_user_id = IrcMessage::new("PRIVMSG")
        .tag("user-id", "userid1")
        .prefix("username", None, None);
    let result = UserInfo::try_from_irc(&no_user_id);
    assert_eq!(
        result,
        Ok(UserInfo::Twitch {
            name: "username".to_string(),
            id: "userid1".to_string(),
        })
    );
}

#[test]
fn test_irc_login_tag_names_user() {
    let message = IrcMessage::new("USERNOTICE")
        .tag("user-id", "userid1")
        .tag("login", "loginname");
    let result = UserInfo::try_from_irc(&message);
    assert_eq!(
        result,
        Ok(UserInfo::Twitch {
            name: "loginname".to_string(),
            id: "userid1".to_string(),
        })
    );
}

#[test]
fn auth_test_format() {
    let auth = AuthRequest::ImplicitCode {
        client_id: "someclientid".to_string(),
        redirect_uri: "https://localhost:4334/".to_string(),
        scope: vec!["scope1".to_string(), "scope2".to_string()],
        force_verify: true,
        state: "abcdefghijklmnopqrstuvwxyz123456789".to_string(),
    };
    assert_eq!(auth.to_url().unwrap(), "https://id.twitch.tv/oauth2/authorize?client_id=someclientid&redirect_uri=https://localhost:4334/&response_type=token&scope=scope1%20scope2&force_verify=true&state=abcdefghijklmnopqrstuvwxyz123456789")
}

#[test]
fn test_format() {
    let auth = AuthRequest::ImplicitCode {
        client_id: "someclientid".to_string(),
        redirect_uri: "https://localhost:4334/".to_string(),
        scope: vec!["scope1".to_string(), "scope2".to_string()],
        force_verify: true,
        state: "abcdefghijklmnopqrstuvwxyz123456789".to_string(),
    };
    assert_eq!(auth.to_url().unwrap(), "https://id.twitch.tv/oauth2/authorize?client_id=someclientid&redirect_uri=https://localhost:4334/&response_type=token&scope=scope1%20scope2&force_verify=true&state=abcdefghijklmnopqrstuvwxyz123456789")
}

#[test]
fn test_from_parts_token() {
    let req = AuthRequest::from_parts(
        "token",
        "client_id".to_string(),
        None,
        default_scopes(),
        "state123".to_string(),
    )
    .unwrap();
    match req {
        AuthRequest::ImplicitCode {
            client_id,
            redirect_uri,
            scope,
            state,
            force_verify,
        } => {
            assert_eq!(client_id, "client_id");
            assert_eq!(redirect_uri, "http://localhost:4334/");
            assert_eq!(scope, default_scopes());
            assert_eq!(state, "state123");
            assert!(force_verify);
        }
        req => panic!("expected the implicit-code flow, got: {:?}", req),
    }
}

#[test]
fn test_from_parts_code() {
    let req = AuthRequest::from_parts(
        "code",
        "client_id".to_string(),
        None,
        default_scopes(),
        "state123".to_string(),
    )
    .unwrap();
    match req {
        AuthRequest::AuthorizationCode { client_id, .. } => {
            assert_eq!(client_id, "client_id");
        }
        req => panic!("expected the authorization-code flow, got: {:?}", req),
    }
}

#[test]
fn test_from_parts_client_credentials() {
    let req = AuthRequest::from_parts(
        "client_credentials",
        "client_id".to_string(),
        Some("client_secret".to_string()),
        default_scopes(),
        "state123".to_string(),
    )
    .unwrap();
    match req {
        AuthRequest::ClientCredentials {
            client_id,
            client_secret,
            scope,
        } => {
            assert_eq!(client_id, "client_id");
            assert_eq!(client_secret, "client_secret");
            assert_eq!(scope, default_scopes());
        }
        req => panic!("expected the client-credentials flow, got: {:?}", req),
    }
}

#[test]
fn test_from_parts_rejects() {
    assert_eq!(
        AuthRequest::from_parts(
            "client_credentials",
            "client_id".to_string(),
            None,
            default_scopes(),
            "state123".to_string(),
        ),
        None
    );
    assert_eq!(
        AuthRequest::from_parts(
            "password",
            "client_id".to_string(),
            None,
            default_scopes(),
            "state123".to_string(),
        ),
        None
    );
}

#[test]
fn test_check_validation() {
    let authenticator = TwitchAuthenticator::new("myclient".to_string(), None);
    let good = TwitchValidation {
        client_id: "myclient".to_string(),
        login: "bot".to_string(),
        user_id: "77".to_string(),
        scopes: vec![],
        expires_in: 3600,
    };
    assert_eq!(
        authenticator.check_validation(&good),
        Ok(UserInfo::Twitch {
            name: "bot".to_string(),
            id: "77".to_string(),
        })
    );
    let bad = TwitchValidation {
        client_id: "otherclient".to_string(),
        login: "bot".to_string(),
        user_id: "77".to_string(),
        scopes: vec![],
        expires_in: 3600,
    };
    assert_eq!(
        authenticator.check_validation(&bad),
        Err(ValidationError::BadClientId)
    );
}

#[test]
fn test_accept_oauth_redirect() {
    assert_eq!(
        accept_oauth_redirect("nonce1", "nonce1", "tok".to_string()),
        Some(Credentials::OAuthToken {
            token: "tok".to_string()
        })
    );
    assert_eq!(
        accept_oauth_redirect("", "anything", "tok".to_string()),
        Some(Credentials::OAuthToken {
            token: "tok".to_string()
        })
    );
    assert_eq!(accept_oauth_redirect("nonce1", "other", "tok".to_string()), None);
}

#[test]
fn test_to_url_normalizes() {
    // The URL parser rewrites what needs escaping: a space inside the state
    // comes back percent-encoded, so the rendered URL is the parser's
    // serialization, not the raw text.
    let auth = AuthRequest::ImplicitCode {
        client_id: "id".to_string(),
        redirect_uri: "https://localhost:4334/".to_string(),
        scope: vec!["scope1".to_string()],
        force_verify: false,
        state: "two words".to_string(),
    };
    assert_eq!(
        auth.to_url().unwrap(),
        "https://id.twitch.tv/oauth2/authorize?client_id=id&redirect_uri=https://localhost:4334/&response_type=token&scope=scope1&force_verify=false&state=two%20words"
    );
}

#[test]
fn test_client_credentials_url() {
    let auth = AuthRequest::ClientCredentials {
        client_id: "id".to_string(),
        client_secret: "secret".to_string(),
        scope: vec!["a".to_string(), "b".to_string()],
    };
    assert_eq!(
        auth.to_url().unwrap(),
        "https://id.twitch.tv/oauth2/token?client_id=id&client_secret=secret&grant_type=client_credentials&scope=a%20b"
    );
}

#[test]
fn test_rand_alphanumeric() {
    let s = bot_rs_core::utils::rand_alphanumeric(30);
    assert_eq!(s.chars().count(), 30);
    assert!(s.chars().all(|c| c.is_ascii_alphanumeric()));
    assert_eq!(bot_rs_core::utils::rand_alphanumeric(0), "");
}
