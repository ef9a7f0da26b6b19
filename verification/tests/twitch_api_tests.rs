use bot_rs_core::auth::UserInfo;
use bot_rs_core::twitch_api::follows::{Follow, GetUsersFollowsReq};
use bot_rs_core::twitch_api::users::{GetUsersReq, UserRes};
use bot_rs_core::twitch_api::Req;

#[test]
fn test_from_iter() {
    let items = vec![
        String::from("name1"),
        String::from("name2"),
        String::from("name3"),
    ];

    let req = GetUsersReq::new(items.clone());
    assert_eq!(req.usernames(), &items);

    let req = GetUsersReq::from_names(&items);
    assert_eq!(req.usernames(), &items);
}

#[test]
fn test_build_getuserreq() {
    let req = GetUsersReq::new(vec!["name1".to_string(), "name2".to_string()]);
    assert_eq!(
        req.url(),
        "https://api.twitch.tv/kraken/users?login=name1,name2".to_string()
    );

    let mut req = GetUsersReq::new(vec!["name1".to_string(), "name2".to_string()]);
    req.base("localhost:8080".to_string());
    assert_eq!(
        req.url(),
        "https://localhost:8080/kraken/users?login=name1,name2".to_string()
    );

    let mut req = GetUsersReq::new(vec!["name1".to_string(), "name2".to_string()]);
    req.base("localhost:8080".to_string());
    req.tls(false);
    assert_eq!(
        req.url(),
        "http://localhost:8080/kraken/users?login=name1,name2".to_string()
    );
}

#[test]
fn follows_request_urls() {
    let req = GetUsersFollowsReq::new(Some("11".to_string()), None);
    assert_eq!(req.url(), "https://api.twitch.tv/helix/users/follows?from_id=11");

    let req = GetUsersFollowsReq::new(None, Some("22".to_string()));
    assert_eq!(req.url(), "https://api.twitch.tv/helix/users/follows?to_id=22");

    let req = GetUsersFollowsReq::new(Some("11".to_string()), Some("22".to_string()));
    assert_eq!(
        req.url(),
        "https://api.twitch.tv/helix/users/follows?from_id=11&to_id=22"
    );
}

fn follow(followed_at: &str) -> Follow {
    Follow {
        from_id: "1".to_string(),
        from_name: "a".to_string(),
        to_id: "2".to_string(),
        to_name: "b".to_string(),
        followed_at: followed_at.to_string(),
    }
}

#[test]
fn followed_at_reads_rfc3339() {
    assert_eq!(follow("1970-01-01T00:00:00+00:00").followed_at(), Some(0));
    assert_eq!(follow("2020-01-01T00:00:00Z").followed_at(), Some(1577836800));
    // An offset shifts the instant.
    assert_eq!(follow("1970-01-01T01:00:00+01:00").followed_at(), Some(0));
    assert_eq!(follow("yesterday").followed_at(), None);
}

#[test]
fn user_info_from_user_record() {
    let record = UserRes {
        id: "42".to_string(),
        bio: None,
        created_at: "2020-01-01T00:00:00Z".to_string(),
        display_name: "Alice".to_string(),
        logo: "".to_string(),
        name: "alice".to_string(),
        typ: "".to_string(),
        updated_at: "2020-01-01T00:00:00Z".to_string(),
    };
    assert_eq!(
        UserInfo::from(record),
        UserInfo::Twitch {
            name: "alice".to_string(),
            id: "42".to_string(),
        }
    );
}
