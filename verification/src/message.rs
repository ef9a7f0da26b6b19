//! The message model: a chat message is a tagged union over the supported
//! platforms, and the one populated variant carries a structured IRC line
//! (tags, prefix, command, parameters and the trailing text).
//!
//! A serialized line must not exceed [`MAX_MESSAGE_BYTES`] bytes; rendering a
//! longer message is reported as a [`FormatError`], never truncated.

use vstd::prelude::*;

use crate::text::spec_join;
use crate::text::join_with;
use crate::text::clone_strings;

verus! {

/// Ceiling on the byte length of one serialized message line.
pub const MAX_MESSAGE_BYTES: usize = 512;

/// One `key=value` tag of an IRC line.
#[derive(Debug, PartialEq, Eq)]
pub struct Tag {
    pub key: String,
    pub value: String,
}

/// Mathematical image of a [`Tag`].
pub ghost struct TagView {
    pub key: Seq<char>,
    pub value: Seq<char>,
}

impl DeepView for Tag {
    type V = TagView;

    open spec fn deep_view(&self) -> TagView {
        TagView { key: self.key@, value: self.value@ }
    }
}

impl Clone for Tag {
    /// Copies the tag; the copy has the same image.
    fn clone(&self) -> (r: Self)
        ensures
            r.deep_view() == self.deep_view(),
    {
        Tag { key: self.key.clone(), value: self.value.clone() }
    }
}

/// The prefix of an IRC line: the sender name with its optional user and host
/// parts.
#[derive(Debug, PartialEq, Eq)]
pub struct Prefix {
    pub name: String,
    pub user: Option<String>,
    pub host: Option<String>,
}

/// Mathematical image of a [`Prefix`].
pub ghost struct PrefixView {
    pub name: Seq<char>,
    pub user: Option<Seq<char>>,
    pub host: Option<Seq<char>>,
}

impl DeepView for Prefix {
    type V = PrefixView;

    open spec fn deep_view(&self) -> PrefixView {
        PrefixView { name: self.name@, user: self.user.deep_view(), host: self.host.deep_view() }
    }
}

/// Copies an optional string; the copy has the same image.
fn clone_opt_string(v: &Option<String>) -> (r: Option<String>)
    ensures
        r.deep_view() == v.deep_view(),
{
    match v {
        Option::None => Option::None,
        Option::Some(s) => Option::Some(s.clone()),
    }
}

impl Clone for Prefix {
    /// Copies the prefix; the copy has the same image.
    fn clone(&self) -> (r: Self)
        ensures
            r.deep_view() == self.deep_view(),
    {
        Prefix {
            name: self.name.clone(),
            user: clone_opt_string(&self.user),
            host: clone_opt_string(&self.host),
        }
    }
}

/// A structured IRC line.
#[derive(Debug, PartialEq, Eq)]
pub struct IrcMessage {
    pub tags: Vec<Tag>,
    pub prefix: Option<Prefix>,
    pub command: String,
    pub params: Vec<String>,
    pub trailing: Option<String>,
}

/// Mathematical image of an [`IrcMessage`].
pub ghost struct IrcMessageView {
    pub tags: Seq<TagView>,
    pub prefix: Option<PrefixView>,
    pub command: Seq<char>,
    pub params: Seq<Seq<char>>,
    pub trailing: Option<Seq<char>>,
}

impl DeepView for IrcMessage {
    type V = IrcMessageView;

    open spec fn deep_view(&self) -> IrcMessageView {
        IrcMessageView {
            tags: self.tags.deep_view(),
            prefix: match self.prefix {
                Option::None => Option::None,
                Option::Some(p) => Option::Some(p.deep_view()),
            },
            command: self.command@,
            params: self.params.deep_view(),
            trailing: self.trailing.deep_view(),
        }
    }
}

/// The value of the first tag with the given key, if any.
pub open spec fn spec_tag_value(tags: Seq<TagView>, key: Seq<char>) -> Option<Seq<char>>
    decreases tags.len(),
{
    if tags.len() == 0 {
        Option::None
    } else if tags[0].key == key {
        Option::Some(tags[0].value)
    } else {
        spec_tag_value(tags.skip(1), key)
    }
}

impl IrcMessage {
    /// A fresh line with the given command and nothing else.
    pub fn new(command: &str) -> (r: IrcMessage)
        ensures
            r.deep_view() == (IrcMessageView {
                tags: Seq::<TagView>::empty(),
                prefix: Option::None,
                command: command@,
                params: Seq::<Seq<char>>::empty(),
                trailing: Option::None,
            }),
    {
        let r = IrcMessage {
            tags: Vec::new(),
            prefix: Option::None,
            command: String::from_str(command),
            params: Vec::new(),
            trailing: Option::None,
        };
        proof {
            assert(r.tags.deep_view() =~= Seq::<TagView>::empty());
            assert(r.params.deep_view() =~= Seq::<Seq<char>>::empty());
        }
        r
    }

    /// The same line with one more tag appended.
    pub fn tag(self, key: &str, value: &str) -> (r: IrcMessage)
        ensures
            r.deep_view() == (IrcMessageView {
                tags: self.deep_view().tags.push(
                    TagView { key: key@, value: value@ },
                ),
                ..self.deep_view()
            }),
    {
        let mut tags = self.tags;
        let ghost pre = tags.deep_view();
        tags.push(Tag { key: String::from_str(key), value: String::from_str(value) });
        proof {
            assert(tags.deep_view() =~~= pre.push(TagView { key: key@, value: value@ }));
        }
        IrcMessage { tags, ..self }
    }

    /// The same line with its prefix replaced.
    pub fn prefix(self, name: &str, user: Option<String>, host: Option<String>) -> (r: IrcMessage)
        ensures
            r.deep_view() == (IrcMessageView {
                prefix: Option::Some(
                    PrefixView { name: name@, user: user.deep_view(), host: host.deep_view() },
                ),
                ..self.deep_view()
            }),
    {
        IrcMessage {
            prefix: Option::Some(Prefix { name: String::from_str(name), user, host }),
            ..self
        }
    }

    /// The same line with one more middle parameter appended.
    pub fn param(self, value: &str) -> (r: IrcMessage)
        ensures
            r.deep_view() == (IrcMessageView {
                params: self.deep_view().params.push(value@),
                ..self.deep_view()
            }),
    {
        let mut params = self.params;
        let ghost pre = params.deep_view();
        params.push(String::from_str(value));
        proof {
            assert(params.deep_view() =~~= pre.push(value@));
        }
        IrcMessage { params, ..self }
    }

    /// The same line with its trailing text replaced.
    pub fn trailing(self, value: &str) -> (r: IrcMessage)
        ensures
            r.deep_view() == (IrcMessageView {
                trailing: Option::Some(value@),
                ..self.deep_view()
            }),
    {
        IrcMessage { trailing: Option::Some(String::from_str(value)), ..self }
    }

    /// The command of the line.
    pub fn command(&self) -> (r: &String)
        ensures
            r@ == self.deep_view().command,
    {
        &self.command
    }

    /// The value of the first tag with the given key, if any.
    pub fn get_tag(&self, key: &str) -> (r: Option<&String>)
        ensures
            match r {
                Option::Some(v) => spec_tag_value(self.deep_view().tags, key@)
                    == Option::Some(v@),
                Option::None => spec_tag_value(self.deep_view().tags, key@) is None,
            },
    {
        let ghost tags_dv = self.deep_view().tags;
        let mut i: usize = 0;
        proof {
            assert(tags_dv.skip(0) =~= tags_dv);
        }
        while i < self.tags.len()
            invariant
                tags_dv == self.deep_view().tags,
                0 <= i <= self.tags.len(),
                tags_dv.len() == self.tags.len(),
                spec_tag_value(tags_dv, key@) == spec_tag_value(tags_dv.skip(i as int), key@),
            decreases self.tags.len() - i,
        {
            proof {
                assert(tags_dv.skip(i as int)[0] == tags_dv[i as int]);
                assert(tags_dv.skip(i as int).skip(1) =~= tags_dv.skip(i + 1));
            }
            if crate::text::str_eq(self.tags[i].key.as_str(), key) {
                return Option::Some(&self.tags[i].value);
            }
            i += 1;
        }
        proof {
            assert(tags_dv.skip(i as int) =~= Seq::<TagView>::empty());
        }
        Option::None
    }

    /// The trailing text of the line, if any.
    pub fn get_trailing(&self) -> (r: Option<&String>)
        ensures
            match r {
                Option::Some(v) => self.deep_view().trailing == Option::Some(v@),
                Option::None => self.deep_view().trailing is None,
            },
    {
        match &self.trailing {
            Option::Some(t) => Option::Some(t),
            Option::None => Option::None,
        }
    }

    /// The name of the prefix of the line, if a prefix is present.
    pub fn prefix_name(&self) -> (r: Option<&String>)
        ensures
            match r {
                Option::Some(v) => self.deep_view().prefix is Some
                    && self.deep_view().prefix->Some_0.name == v@,
                Option::None => self.deep_view().prefix is None,
            },
    {
        match &self.prefix {
            Option::Some(p) => Option::Some(&p.name),
            Option::None => Option::None,
        }
    }

    /// The middle parameter at the given position, if the line has that many.
    pub fn get_param(&self, index: usize) -> (r: Option<&String>)
        ensures
            match r {
                Option::Some(v) => index < self.deep_view().params.len()
                    && self.deep_view().params[index as int] == v@,
                Option::None => index >= self.deep_view().params.len(),
            },
    {
        if index < self.params.len() {
            Option::Some(&self.params[index])
        } else {
            Option::None
        }
    }
}

/// Copies a vector of tags; the copy has the same image.
fn clone_tags(v: &Vec<Tag>) -> (r: Vec<Tag>)
    ensures
        r.deep_view() == v.deep_view(),
{
    let mut r: Vec<Tag> = Vec::new();
    let mut i: usize = 0;
    while i < v.len()
        invariant
            0 <= i <= v.len(),
            r.deep_view() =~= v.deep_view().take(i as int),
        decreases v.len() - i,
    {
        let ghost pre = r.deep_view();
        r.push(v[i].clone());
        proof {
            assert(r.deep_view() =~~= pre.push(v@[i as int].deep_view()));
            assert(v.deep_view().take(i + 1) =~~= pre.push(v@[i as int].deep_view()));
        }
        i += 1;
    }
    proof {
        assert(v.deep_view().take(v.deep_view().len() as int) =~= v.deep_view());
    }
    r
}

impl Clone for IrcMessage {
    /// Copies the line; the copy has the same image.
    fn clone(&self) -> (r: Self)
        ensures
            r.deep_view() == self.deep_view(),
    {
        IrcMessage {
            tags: clone_tags(&self.tags),
            prefix: match &self.prefix {
                Option::None => Option::None,
                Option::Some(p) => Option::Some(p.clone()),
            },
            command: self.command.clone(),
            params: clone_strings(&self.params),
            trailing: clone_opt_string(&self.trailing),
        }
    }
}

/// A chat message: a tagged union over the supported platforms.
#[derive(Debug, PartialEq, Eq)]
pub enum Message {
    Irc(IrcMessage),
}

/// Mathematical image of a [`Message`].
pub ghost enum MessageView {
    Irc(IrcMessageView),
}

impl DeepView for Message {
    type V = MessageView;

    open spec fn deep_view(&self) -> MessageView {
        match self {
            Message::Irc(m) => MessageView::Irc(m.deep_view()),
        }
    }
}

impl Clone for Message {
    /// Copies the message; the copy has the same image.
    fn clone(&self) -> (r: Self)
        ensures
            r.deep_view() == self.deep_view(),
    {
        match self {
            Message::Irc(m) => Message::Irc(m.clone()),
        }
    }
}

/// Error returned when a message renders to a line over the byte ceiling.
#[derive(Debug, PartialEq, Eq)]
pub struct FormatError {
    /// The byte length the serialized line would have had.
    pub length: usize,
}

/// The `key=value` texts of the tags, in order.
pub open spec fn spec_tag_parts(tags: Seq<TagView>) -> Seq<Seq<char>>
    decreases tags.len(),
{
    if tags.len() == 0 {
        Seq::<Seq<char>>::empty()
    } else {
        spec_tag_parts(tags.drop_last()).push(tags.last().key + "="@ + tags.last().value)
    }
}

/// The leading tags section of a rendered line: empty when the message has no
/// tags, else `@` then the tags joined by `;` then one space.
pub open spec fn spec_tags_section(tags: Seq<TagView>) -> Seq<char> {
    if tags.len() == 0 {
        Seq::<char>::empty()
    } else {
        "@"@ + spec_join(spec_tag_parts(tags), ";"@) + " "@
    }
}

/// The prefix section of a rendered line: empty when the message has no
/// prefix, else `:` then the name, `!user` and `@host` when present, then one
/// space.
pub open spec fn spec_prefix_section(prefix: Option<PrefixView>) -> Seq<char> {
    match prefix {
        Option::None => Seq::<char>::empty(),
        Option::Some(p) => ":"@ + p.name + (match p.user {
            Option::None => Seq::<char>::empty(),
            Option::Some(u) => "!"@ + u,
        }) + (match p.host {
            Option::None => Seq::<char>::empty(),
            Option::Some(h) => "@"@ + h,
        }) + " "@,
    }
}

/// The middle parameters of a rendered line, each preceded by one space.
pub open spec fn spec_params_section(params: Seq<Seq<char>>) -> Seq<char>
    decreases params.len(),
{
    if params.len() == 0 {
        Seq::<char>::empty()
    } else {
        spec_params_section(params.drop_last()) + " "@ + params.last()
    }
}

/// The trailing section of a rendered line: empty when absent, else a space,
/// a colon and the trailing text.
pub open spec fn spec_trailing_section(trailing: Option<Seq<char>>) -> Seq<char> {
    match trailing {
        Option::None => Seq::<char>::empty(),
        Option::Some(t) => " :"@ + t,
    }
}

/// The full rendered line of a message.
pub open spec fn spec_line(m: MessageView) -> Seq<char> {
    match m {
        MessageView::Irc(irc) => spec_tags_section(irc.tags) + spec_prefix_section(irc.prefix)
            + irc.command + spec_params_section(irc.params) + spec_trailing_section(irc.trailing),
    }
}

/// Renders the tags section of a line.
fn render_tags_section(tags: &Vec<Tag>) -> (r: String)
    ensures
        r@ == spec_tags_section(tags.deep_view()),
{
    let ghost dv = tags.deep_view();
    if tags.len() == 0 {
        let r = String::new();
        proof {
            assert(r@ =~= spec_tags_section(dv));
        }
        return r;
    }
    let mut parts: Vec<String> = Vec::new();
    let mut i: usize = 0;
    proof {
        assert(parts.deep_view() =~~= spec_tag_parts(dv.take(0)));
    }
    while i < tags.len()
        invariant
            dv == tags.deep_view(),
            dv.len() == tags.len(),
            0 <= i <= tags.len(),
            parts.deep_view() == spec_tag_parts(dv.take(i as int)),
        decreases tags.len() - i,
    {
        let mut part = tags[i].key.clone();
        part.append("=");
        part.append(tags[i].value.as_str());
        let ghost pre = parts.deep_view();
        parts.push(part);
        proof {
            assert(dv.take(i + 1).drop_last() =~= dv.take(i as int));
            assert(dv.take(i + 1).last() == dv[i as int]);
            assert(parts.deep_view() =~~= pre.push(dv[i as int].key + "="@ + dv[i as int].value));
        }
        i += 1;
    }
    proof {
        assert(dv.take(dv.len() as int) =~= dv);
    }
    let mut line = String::new();
    line.append("@");
    let joined = join_with(&parts, ";");
    line.append(joined.as_str());
    line.append(" ");
    proof {
        assert(line@ =~= spec_tags_section(dv));
    }
    line
}

/// Renders the prefix section of a line.
fn render_prefix_section(prefix: &Option<Prefix>) -> (r: String)
    ensures
        r@ == spec_prefix_section(match prefix {
            Option::None => Option::None,
            Option::Some(p) => Option::Some(p.deep_view()),
        }),
{
    let ghost dv: Option<PrefixView> = match prefix {
        Option::None => Option::None,
        Option::Some(p) => Option::Some(p.deep_view()),
    };
    let mut line = String::new();
    match prefix {
        Option::Some(p) => {
            line.append(":");
            line.append(p.name.as_str());
            match &p.user {
                Option::Some(u) => {
                    line.append("!");
                    line.append(u.as_str());
                },
                Option::None => {},
            }
            match &p.host {
                Option::Some(h) => {
                    line.append("@");
                    line.append(h.as_str());
                },
                Option::None => {},
            }
            line.append(" ");
            proof {
                assert(line@ =~= spec_prefix_section(dv));
            }
        },
        Option::None => {
            proof {
                assert(line@ =~= spec_prefix_section(dv));
            }
        },
    }
    line
}

/// Renders the middle-parameter section of a line.
fn render_params_section(params: &Vec<String>) -> (r: String)
    ensures
        r@ == spec_params_section(params.deep_view()),
{
    let ghost dv = params.deep_view();
    let mut line = String::new();
    let mut i: usize = 0;
    proof {
        assert(line@ =~= spec_params_section(dv.take(0)));
    }
    while i < params.len()
        invariant
            dv == params.deep_view(),
            dv.len() == params.len(),
            0 <= i <= params.len(),
            line@ == spec_params_section(dv.take(i as int)),
        decreases params.len() - i,
    {
        line.append(" ");
        line.append(params[i].as_str());
        proof {
            assert(dv.take(i + 1).drop_last() =~= dv.take(i as int));
            assert(dv.take(i + 1).last() == dv[i as int]);
            assert(line@ =~= spec_params_section(dv.take(i + 1)));
        }
        i += 1;
    }
    proof {
        assert(dv.take(dv.len() as int) =~= dv);
    }
    line
}

impl IrcMessage {
    /// Renders the line.
    fn render(&self) -> (r: String)
        ensures
            r@ == spec_line(MessageView::Irc(self.deep_view())),
    {
        let ghost dv = self.deep_view();
        let mut line = render_tags_section(&self.tags);
        let prefix_part = render_prefix_section(&self.prefix);
        line.append(prefix_part.as_str());
        line.append(self.command.as_str());
        let params_part = render_params_section(&self.params);
        line.append(params_part.as_str());
        match &self.trailing {
            Option::Some(t) => {
                line.append(" :");
                line.append(t.as_str());
            },
            Option::None => {},
        }
        proof {
            assert(line@ =~= spec_line(MessageView::Irc(dv)));
        }
        line
    }
}

impl Message {
    /// Serializes the message to its wire line, or reports the byte length
    /// when the line would exceed [`MAX_MESSAGE_BYTES`] bytes. A long message
    /// is an error, never truncated.
    pub fn to_line(&self) -> (r: Result<String, FormatError>)
        ensures
            match r {
                Result::Ok(s) => s@ == spec_line(self.deep_view())
                    && (vstd::utf8::encode_utf8(spec_line(self.deep_view())).len() as usize)
                    <= MAX_MESSAGE_BYTES,
                Result::Err(e) => (vstd::utf8::encode_utf8(spec_line(self.deep_view())).len()
                    as usize) > MAX_MESSAGE_BYTES && e.length == (vstd::utf8::encode_utf8(
                    spec_line(self.deep_view()),
                ).len() as usize),
            },
    {
        let line = match self {
            Message::Irc(m) => m.render(),
        };
        let byte_len = line.as_str().len();
        if byte_len > MAX_MESSAGE_BYTES {
            Result::Err(FormatError { length: byte_len })
        } else {
            Result::Ok(line)
        }
    }
}

} // verus!
