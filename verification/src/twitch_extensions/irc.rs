//! Reading a chat line as a `PRIVMSG`: the wrapper that witnesses the
//! command, and accessors for the tags and parameters such a line carries.

use vstd::prelude::*;

use crate::auth::UserInfo;
use crate::auth::UserInfoView;
use crate::message::IrcMessage;
use crate::message::Message;
use crate::message::spec_tag_value;
use crate::text::eq_ignore_ascii_case_seq;
use crate::text::str_eq_ignore_ascii_case;
use crate::text::spec_split;
use crate::text::split_char;

verus! {

/// A message carried another command than the expected one: the expected and
/// the actual command.
#[derive(Debug, PartialEq, Eq)]
pub struct InvalidCommand(pub String, pub String);

/// Why a property cannot be read off a `PRIVMSG` line.
#[derive(Debug, PartialEq, Eq)]
pub enum GetPropertyError {
    /// The line carries no tags.
    MissingTags,
    /// The named tag is absent.
    MissingTag(String),
    /// The line has no prefix to name the sender.
    MissingPrefix,
    /// The parameter at this position is absent.
    MissingParam { index: usize, name: String },
    /// The line has no trailing text.
    MissingTrailingParam,
}

/// A chat line whose command is `PRIVMSG`, up to ASCII case.
#[derive(Debug, PartialEq, Eq)]
pub struct PrivMsg(pub IrcMessage);

impl Message {
    /// Reads the message as a `PRIVMSG`: accepted exactly when its command
    /// is `PRIVMSG` up to ASCII case; any other command is reported with the
    /// expected and the actual text.
    pub fn into_privmsg(self) -> (r: Result<PrivMsg, InvalidCommand>)
        ensures
            match r {
                Result::Ok(p) => eq_ignore_ascii_case_seq(
                    p.0.deep_view().command,
                    "PRIVMSG"@,
                ) && spec_irc_view(p.0) == self.deep_view(),
                Result::Err(e) => !eq_ignore_ascii_case_seq(
                    spec_message_command(self.deep_view()),
                    "PRIVMSG"@,
                ) && e.0@ == "PRIVMSG"@ && e.1@ == spec_message_command(self.deep_view()),
            },
    {
        let Message::Irc(irc) = self;
        if str_eq_ignore_ascii_case(irc.command.as_str(), "PRIVMSG") {
            Result::Ok(PrivMsg(irc))
        } else {
            let found = irc.command.clone();
            Result::Err(InvalidCommand(String::from_str("PRIVMSG"), found))
        }
    }
}

/// The command a message carries.
pub open spec fn spec_message_command(m: crate::message::MessageView) -> Seq<char> {
    match m {
        crate::message::MessageView::Irc(irc) => irc.command,
    }
}

/// The message image an IRC line stands for.
pub open spec fn spec_irc_view(irc: IrcMessage) -> crate::message::MessageView {
    crate::message::MessageView::Irc(irc.deep_view())
}

impl PrivMsg {
    /// The value of a required tag: the line must carry tags at all, and the
    /// named one among them.
    pub fn get_tag(&self, name: &str) -> (r: Result<&String, GetPropertyError>)
        ensures
            match r {
                Result::Ok(v) => spec_tag_value(self.0.deep_view().tags, name@) == Option::Some(
                    v@,
                ),
                Result::Err(e) => {
                    &&& spec_tag_value(self.0.deep_view().tags, name@) is None
                    &&& (self.0.deep_view().tags.len() == 0 ==> e == GetPropertyError::MissingTags)
                    &&& (self.0.deep_view().tags.len() > 0 ==> (e matches
                        GetPropertyError::MissingTag(n) && n@ == name@))
                },
            },
    {
        if self.0.tags.len() == 0 {
            proof {
                lemma_tag_value_empty(self.0.deep_view().tags, name@);
            }
            return Result::Err(GetPropertyError::MissingTags);
        }
        match self.0.get_tag(name) {
            Option::Some(v) => Result::Ok(v),
            Option::None => Result::Err(GetPropertyError::MissingTag(String::from_str(name))),
        }
    }

    /// The badge roles of the sender: the `badges` tag split at commas.
    pub fn badges(&self) -> (r: Result<Vec<String>, GetPropertyError>)
        ensures
            r matches Ok(v) ==> (spec_tag_value(
                self.0.deep_view().tags,
                "badges"@,
            ) matches Some(b) && v.deep_view() == spec_split(b, ',')),
            r is Err ==> spec_tag_value(self.0.deep_view().tags, "badges"@) is None,
    {
        match self.get_tag("badges") {
            Result::Ok(raw) => Result::Ok(split_char(raw.as_str(), ',')),
            Result::Err(e) => Result::Err(e),
        }
    }

    /// The badge details of the sender: the `badge-info` tag split at commas.
    pub fn badge_info(&self) -> (r: Result<Vec<String>, GetPropertyError>)
        ensures
            r matches Ok(v) ==> (spec_tag_value(
                self.0.deep_view().tags,
                "badge-info"@,
            ) matches Some(b) && v.deep_view() == spec_split(b, ',')),
            r is Err ==> spec_tag_value(self.0.deep_view().tags, "badge-info"@) is None,
    {
        match self.get_tag("badge-info") {
            Result::Ok(raw) => Result::Ok(split_char(raw.as_str(), ',')),
            Result::Err(e) => Result::Err(e),
        }
    }

    /// The emotes of the line: the `emotes` tag split at commas.
    pub fn emotes(&self) -> (r: Result<Vec<String>, GetPropertyError>)
        ensures
            r matches Ok(v) ==> (spec_tag_value(
                self.0.deep_view().tags,
                "emotes"@,
            ) matches Some(b) && v.deep_view() == spec_split(b, ',')),
            r is Err ==> spec_tag_value(self.0.deep_view().tags, "emotes"@) is None,
    {
        match self.get_tag("emotes") {
            Result::Ok(raw) => Result::Ok(split_char(raw.as_str(), ',')),
            Result::Err(e) => Result::Err(e),
        }
    }

    /// The `bits` tag.
    pub fn bits(&self) -> (r: Result<&String, GetPropertyError>)
        ensures
            r matches Ok(v) ==> spec_tag_value(self.0.deep_view().tags, "bits"@) == Option::Some(
                v@,
            ),
            r is Err ==> spec_tag_value(self.0.deep_view().tags, "bits"@) is None,
    {
        self.get_tag("bits")
    }

    /// The `user-id` tag.
    pub fn user_id(&self) -> (r: Result<&String, GetPropertyError>)
        ensures
            r matches Ok(v) ==> spec_tag_value(self.0.deep_view().tags, "user-id"@)
                == Option::Some(v@),
            r is Err ==> spec_tag_value(self.0.deep_view().tags, "user-id"@) is None,
    {
        self.get_tag("user-id")
    }

    /// The `color` tag.
    pub fn color(&self) -> (r: Result<&String, GetPropertyError>)
        ensures
            r matches Ok(v) ==> spec_tag_value(self.0.deep_view().tags, "color"@) == Option::Some(
                v@,
            ),
            r is Err ==> spec_tag_value(self.0.deep_view().tags, "color"@) is None,
    {
        self.get_tag("color")
    }

    /// The `display_name` tag.
    pub fn display_name(&self) -> (r: Result<&String, GetPropertyError>)
        ensures
            r matches Ok(v) ==> spec_tag_value(self.0.deep_view().tags, "display_name"@)
                == Option::Some(v@),
            r is Err ==> spec_tag_value(self.0.deep_view().tags, "display_name"@) is None,
    {
        self.get_tag("display_name")
    }

    /// The `id` tag.
    pub fn id(&self) -> (r: Result<&String, GetPropertyError>)
        ensures
            r matches Ok(v) ==> spec_tag_value(self.0.deep_view().tags, "id"@) == Option::Some(
                v@,
            ),
            r is Err ==> spec_tag_value(self.0.deep_view().tags, "id"@) is None,
    {
        self.get_tag("id")
    }

    /// The `room-id` tag.
    pub fn room_id(&self) -> (r: Result<&String, GetPropertyError>)
        ensures
            r matches Ok(v) ==> spec_tag_value(self.0.deep_view().tags, "room-id"@)
                == Option::Some(v@),
            r is Err ==> spec_tag_value(self.0.deep_view().tags, "room-id"@) is None,
    {
        self.get_tag("room-id")
    }

    /// The `tmi-sent-ts` tag.
    pub fn tmi_sent_ts(&self) -> (r: Result<&String, GetPropertyError>)
        ensures
            r matches Ok(v) ==> spec_tag_value(self.0.deep_view().tags, "tmi-sent-ts"@)
                == Option::Some(v@),
            r is Err ==> spec_tag_value(self.0.deep_view().tags, "tmi-sent-ts"@) is None,
    {
        self.get_tag("tmi-sent-ts")
    }

    /// The name of the sender, from the line's prefix.
    pub fn username(&self) -> (r: Result<&String, GetPropertyError>)
        ensures
            match r {
                Result::Ok(v) => self.0.deep_view().prefix matches Some(p) && p.name == v@,
                Result::Err(e) => self.0.deep_view().prefix is None && e
                    == GetPropertyError::MissingPrefix,
            },
    {
        match self.0.prefix_name() {
            Option::Some(name) => Result::Ok(name),
            Option::None => Result::Err(GetPropertyError::MissingPrefix),
        }
    }

    /// The channel the line was sent to: its first middle parameter.
    pub fn channel(&self) -> (r: Result<&String, GetPropertyError>)
        ensures
            match r {
                Result::Ok(v) => self.0.deep_view().params.len() > 0 && self.0.deep_view().params[0]
                    == v@,
                Result::Err(e) => self.0.deep_view().params.len() == 0 && (e matches
                    GetPropertyError::MissingParam { index, name } && index == 0 && name@
                    == "channel"@),
            },
    {
        match self.0.get_param(0) {
            Option::Some(v) => Result::Ok(v),
            Option::None => Result::Err(
                GetPropertyError::MissingParam { index: 0, name: String::from_str("channel") },
            ),
        }
    }

    /// The text of the line: its trailing parameter.
    pub fn message(&self) -> (r: Result<&String, GetPropertyError>)
        ensures
            match r {
                Result::Ok(v) => self.0.deep_view().trailing == Option::Some(v@),
                Result::Err(e) => self.0.deep_view().trailing is None && e
                    == GetPropertyError::MissingTrailingParam,
            },
    {
        match self.0.get_trailing() {
            Option::Some(v) => Result::Ok(v),
            Option::None => Result::Err(GetPropertyError::MissingTrailingParam),
        }
    }

    /// The sender as a user record: the prefix gives the name, the `user-id`
    /// tag the id.
    pub fn to_user_info(&self) -> (r: Result<UserInfo, GetPropertyError>)
        ensures
            r matches Ok(u) ==> (u.deep_view() matches UserInfoView::Twitch { name, id } && (
            self.0.deep_view().prefix matches Some(p) && p.name == name) && spec_tag_value(
                self.0.deep_view().tags,
                "user-id"@,
            ) == Option::Some(id)),
    {
        let name = match self.username() {
            Result::Ok(name) => name.clone(),
            Result::Err(e) => {
                return Result::Err(e);
            },
        };
        let id = match self.user_id() {
            Result::Ok(id) => id.clone(),
            Result::Err(e) => {
                return Result::Err(e);
            },
        };
        Result::Ok(UserInfo::Twitch { name, id })
    }
}

/// An empty tag list holds no tag.
proof fn lemma_tag_value_empty(tags: Seq<crate::message::TagView>, key: Seq<char>)
    requires
        tags.len() == 0,
    ensures
        spec_tag_value(tags, key) is None,
{
}

} // verus!
