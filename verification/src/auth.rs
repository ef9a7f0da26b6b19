//! Platform-independent user and credential types: which platform a user
//! belongs to, the unified user record, the credentials the bot signs in
//! with, and the interface an authentication flow implements.

use vstd::prelude::*;

use crate::message::IrcMessage;
use crate::message::IrcMessageView;
use crate::message::spec_tag_value;
use crate::text::starts_with_str;

verus! {

/// A supported chat platform.
#[derive(Debug, PartialEq, Eq, Structural, Clone, Copy, Hash)]
pub enum Platform {
    Twitch,
}

/// Why a user record cannot be read off an IRC message.
#[derive(Debug, PartialEq, Eq)]
pub enum InvalidIrcMessageError {
    /// The message carries no tags.
    MissingTags,
    /// The tags carry no `user-id`.
    MissingUserId,
    /// The message has neither a prefix nor a `login` tag to name the user.
    MissingPrefix,
}

/// A user, in a unified shape over all platforms.
#[derive(Debug, PartialEq, Eq, Hash)]
pub enum UserInfo {
    Twitch { name: String, id: String },
    Unknown,
}

/// Mathematical image of a [`UserInfo`].
pub ghost enum UserInfoView {
    Twitch { name: Seq<char>, id: Seq<char> },
    Unknown,
}

impl DeepView for UserInfo {
    type V = UserInfoView;

    open spec fn deep_view(&self) -> UserInfoView {
        match self {
            UserInfo::Twitch { name, id } => UserInfoView::Twitch { name: name@, id: id@ },
            UserInfo::Unknown => UserInfoView::Unknown,
        }
    }
}

/// The user an IRC message is from: its `user-id` tag gives the id, the
/// prefix — or, failing that, the `login` tag — gives the name. A message
/// without tags carries no user.
pub open spec fn spec_user_of_irc(m: IrcMessageView) -> Result<
    UserInfoView,
    InvalidIrcMessageError,
> {
    if m.tags.len() == 0 {
        Result::Err(InvalidIrcMessageError::MissingTags)
    } else {
        match spec_tag_value(m.tags, "user-id"@) {
            Option::None => Result::Err(InvalidIrcMessageError::MissingUserId),
            Option::Some(id) => match m.prefix {
                Option::Some(p) => Result::Ok(UserInfoView::Twitch { name: p.name, id }),
                Option::None => match spec_tag_value(m.tags, "login"@) {
                    Option::Some(login) => Result::Ok(UserInfoView::Twitch { name: login, id }),
                    Option::None => Result::Err(InvalidIrcMessageError::MissingPrefix),
                },
            },
        }
    }
}

impl UserInfo {
    /// The name of the user on its platform.
    pub fn get_platform_name(&self) -> (r: Option<&String>)
        ensures
            match r {
                Option::Some(name) => self.deep_view() matches UserInfoView::Twitch {
                    name: n,
                    ..
                } && n == name@,
                Option::None => self.deep_view() is Unknown,
            },
    {
        match self {
            UserInfo::Twitch { name, .. } => Option::Some(name),
            UserInfo::Unknown => Option::None,
        }
    }

    /// The id of the user on its platform.
    pub fn get_platform_id(&self) -> (r: Option<&String>)
        ensures
            match r {
                Option::Some(id) => self.deep_view() matches UserInfoView::Twitch {
                    id: i,
                    ..
                } && i == id@,
                Option::None => self.deep_view() is Unknown,
            },
    {
        match self {
            UserInfo::Twitch { id, .. } => Option::Some(id),
            UserInfo::Unknown => Option::None,
        }
    }

    /// A unique id over all platforms: the platform name, a `#`, and the
    /// platform-local id; the empty string for no user.
    pub fn to_global_id(&self) -> (r: String)
        ensures
            match self.deep_view() {
                UserInfoView::Twitch { id, .. } => r@ == "twitch#"@ + id,
                UserInfoView::Unknown => r@ == Seq::<char>::empty(),
            },
    {
        match self {
            UserInfo::Twitch { id, .. } => {
                let mut r = String::from_str("twitch#");
                r.append(id.as_str());
                r
            },
            UserInfo::Unknown => String::new(),
        }
    }

    /// Reads the user off an IRC message, as [`spec_user_of_irc`] states it.
    /// A message without tags, without a `user-id` tag, or without any name
    /// for the user is rejected with the first missing piece.
    pub fn try_from_irc(message: &IrcMessage) -> (r: Result<UserInfo, InvalidIrcMessageError>)
        ensures
            match r {
                Result::Ok(u) => spec_user_of_irc(message.deep_view()) == Result::<
                    UserInfoView,
                    InvalidIrcMessageError,
                >::Ok(u.deep_view()),
                Result::Err(e) => spec_user_of_irc(message.deep_view()) == Result::<
                    UserInfoView,
                    InvalidIrcMessageError,
                >::Err(e),
            },
    {
        if message.tags.len() == 0 {
            return Result::Err(InvalidIrcMessageError::MissingTags);
        }
        let id = match message.get_tag("user-id") {
            Option::None => {
                return Result::Err(InvalidIrcMessageError::MissingUserId);
            },
            Option::Some(id) => id.clone(),
        };
        match message.prefix_name() {
            Option::Some(name) => Result::Ok(UserInfo::Twitch { name: name.clone(), id }),
            Option::None => match message.get_tag("login") {
                Option::Some(login) => Result::Ok(UserInfo::Twitch { name: login.clone(), id }),
                Option::None => Result::Err(InvalidIrcMessageError::MissingPrefix),
            },
        }
    }
}

/// Platform-independent credentials.
#[derive(Debug, PartialEq, Eq, Hash)]
pub enum Credentials {
    OAuthToken { token: String },
    Missing,
}

/// Mathematical image of a [`Credentials`].
pub ghost enum CredentialsView {
    OAuthToken { token: Seq<char> },
    Missing,
}

impl DeepView for Credentials {
    type V = CredentialsView;

    open spec fn deep_view(&self) -> CredentialsView {
        match self {
            Credentials::OAuthToken { token } => CredentialsView::OAuthToken { token: token@ },
            Credentials::Missing => CredentialsView::Missing,
        }
    }
}

impl Clone for Credentials {
    /// Copies the credentials; the copy has the same image.
    fn clone(&self) -> (r: Self)
        ensures
            r.deep_view() == self.deep_view(),
    {
        match self {
            Credentials::OAuthToken { token } => Credentials::OAuthToken { token: token.clone() },
            Credentials::Missing => Credentials::Missing,
        }
    }
}

impl Credentials {
    /// The display text: `oauth:` and the token, or `NONE`.
    pub fn display_string(&self) -> (r: String)
        ensures
            match self.deep_view() {
                CredentialsView::OAuthToken { token } => r@ == "oauth:"@ + token,
                CredentialsView::Missing => r@ == "NONE"@,
            },
    {
        match self {
            Credentials::OAuthToken { token } => {
                let mut r = String::from_str("oauth:");
                r.append(token.as_str());
                r
            },
            Credentials::Missing => String::from_str("NONE"),
        }
    }

    /// Reads credentials from their display text: a string starting with
    /// `oauth:` carries a token; any other shape carries no credentials.
    pub fn parse(s: &str) -> (r: Credentials)
        ensures
            (s@.len() >= "oauth:"@.len() && s@.take("oauth:"@.len() as int) == "oauth:"@)
                ==> r.deep_view() == (CredentialsView::OAuthToken {
                token: s@.skip("oauth:"@.len() as int),
            }),
            !(s@.len() >= "oauth:"@.len() && s@.take("oauth:"@.len() as int) == "oauth:"@)
                ==> r.deep_view() == CredentialsView::Missing,
    {
        if starts_with_str(s, "oauth:") {
            proof {
                reveal_strlit("oauth:");
            }
            let token = s.substring_char(6, s.unicode_len());
            Credentials::OAuthToken { token: String::from_str(token) }
        } else {
            Credentials::Missing
        }
    }
}

impl From<crate::twitch_api::users::UserRes> for UserInfo {
    /// The user a platform record names.
    fn from(res: crate::twitch_api::users::UserRes) -> (r: Self)
        ensures
            r == (UserInfo::Twitch { name: res.name, id: res.id }),
    {
        UserInfo::Twitch { name: res.name, id: res.id }
    }
}

impl vstd::std_specs::convert::FromSpecImpl<crate::twitch_api::users::UserRes> for UserInfo {
    open spec fn obeys_from_spec() -> bool {
        true
    }

    open spec fn from_spec(res: crate::twitch_api::users::UserRes) -> Self {
        UserInfo::Twitch { name: res.name, id: res.id }
    }
}

/// Why validating credentials failed.
#[derive(Debug, PartialEq, Eq)]
pub enum ValidationError {
    /// The platform did not accept the credentials.
    Invalid,
    /// The credentials belong to another client id than the bot's own.
    BadClientId,
}

/// An authentication flow: it obtains credentials, and validates given ones
/// to the user they belong to. Implementations talk to their platform; what
/// they answer depends on it.
pub trait Authenticator {
    /// Obtains fresh credentials.
    fn authenticate(&self) -> Credentials;

    /// Validates credentials to the user they belong to.
    fn validate(&self, cred: &Credentials) -> Result<UserInfo, ValidationError>;
}

} // verus!
