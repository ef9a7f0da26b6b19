//! Access filters: a small recursive predicate over messages that gates who
//! may invoke a command. Evaluation has two phases — `handles` asks whether a
//! filter applies to a message's shape at all, `matches` whether the pattern
//! then matches — and a filter set answers with a tri-state: `None` when no
//! filter handles the message ("no opinion"), else `Some` of whether any
//! handling filter matched.

use vstd::prelude::*;

use crate::message::Message;
use crate::message::MessageView;
use crate::message::spec_tag_value;
use crate::text::spec_split;
use crate::text::split_char;

verus! {

/// What a regular-expression search answers: whether the pattern compiles
/// and matches anywhere in the text. Both depend on the two strings alone.
pub uninterp spec fn regex_accepts(pattern: Seq<char>, text: Seq<char>) -> bool;

/// Relies on `regex::Regex::new` and `regex::Regex::is_match`: compiling a
/// pattern and searching a haystack are functions of the two strings alone.
/// A pattern that does not compile matches nothing.
#[verifier::external_body]
fn regex_is_match(pattern: &str, text: &str) -> (r: bool)
    ensures
        r == regex_accepts(pattern@, text@),
{
    match regex::Regex::new(pattern) {
        Ok(re) => re.is_match(text),
        Err(_) => false,
    }
}

/// A recursive predicate over messages.
#[derive(Debug, PartialEq, Eq)]
pub enum AccessFilter {
    /// Does any badge of the message match the pattern?
    Badge(String),
    /// Does the trailing text of the message match the pattern?
    Trailing(String),
    /// Do all child filters accept the message? The logical AND.
    All(Vec<AccessFilter>),
    /// Does any child filter accept the message? The logical OR.
    Any(Vec<AccessFilter>),
}

/// Whether a filter applies to a message's shape at all: a badge filter needs
/// the `badges` tag, a trailing filter the trailing text, and the combinators
/// delegate to their children with AND respectively OR.
pub open spec fn spec_handles(filter: AccessFilter, m: MessageView) -> bool
    decreases filter,
{
    match filter {
        AccessFilter::Badge(_) => match m {
            MessageView::Irc(irc) => spec_tag_value(irc.tags, "badges"@) is Some,
        },
        AccessFilter::Trailing(_) => match m {
            MessageView::Irc(irc) => irc.trailing is Some,
        },
        AccessFilter::All(children) => forall|i: int|
            0 <= i < children@.len() ==> spec_handles(#[trigger] children@[i], m),
        AccessFilter::Any(children) => exists|i: int|
            0 <= i < children@.len() && spec_handles(#[trigger] children@[i], m),
    }
}

/// Whether a filter accepts a message: a badge filter when any badge —
/// the `badges` tag split at commas — matches its pattern, a trailing filter
/// when the trailing text matches its pattern, and the combinators with AND
/// respectively OR over their children.
pub open spec fn spec_matches(filter: AccessFilter, m: MessageView) -> bool
    decreases filter,
{
    match filter {
        AccessFilter::Badge(pattern) => match m {
            MessageView::Irc(irc) => match spec_tag_value(irc.tags, "badges"@) {
                Option::Some(badges) => exists|i: int|
                    0 <= i < spec_split(badges, ',').len() && regex_accepts(
                        pattern@,
                        #[trigger] spec_split(badges, ',')[i],
                    ),
                Option::None => false,
            },
        },
        AccessFilter::Trailing(pattern) => match m {
            MessageView::Irc(irc) => match irc.trailing {
                Option::Some(trailing) => regex_accepts(pattern@, trailing),
                Option::None => false,
            },
        },
        AccessFilter::All(children) => forall|i: int|
            0 <= i < children@.len() ==> spec_matches(#[trigger] children@[i], m),
        AccessFilter::Any(children) => exists|i: int|
            0 <= i < children@.len() && spec_matches(#[trigger] children@[i], m),
    }
}

impl AccessFilter {
    /// The filter that accepts messages of the broadcaster.
    pub fn broadcaster() -> (r: AccessFilter)
        ensures
            r matches AccessFilter::Badge(p) && p@ == "broadcaster/*"@,
    {
        AccessFilter::Badge(String::from_str("broadcaster/*"))
    }

    /// The filter that accepts only messages not invoking any command: the
    /// trailing text must not start with a command marker.
    pub fn default_command_start() -> (r: AccessFilter)
        ensures
            r matches AccessFilter::Trailing(p) && p@ == "^\\s*[^!\\?¡¿]"@,
    {
        AccessFilter::Trailing(String::from_str("^\\s*[^!\\?¡¿]"))
    }

    /// Whether this filter applies to the message's shape at all.
    #[verifier::loop_isolation(false)]
    pub fn handles(&self, message: &Message) -> (r: bool)
        ensures
            r == spec_handles(*self, message.deep_view()),
        decreases *self,
    {
        match self {
            AccessFilter::Badge(_) => {
                let Message::Irc(irc) = message;
                irc.get_tag("badges").is_some()
            },
            AccessFilter::Trailing(_) => {
                let Message::Irc(irc) = message;
                irc.get_trailing().is_some()
            },
            AccessFilter::All(children) => {
                let mut i: usize = 0;
                while i < children.len()
                    invariant
                        0 <= i <= children@.len(),
                        forall|j: int|
                            0 <= j < i ==> spec_handles(
                                #[trigger] children@[j],
                                message.deep_view(),
                            ),
                    decreases children@.len() - i,
                {
                    proof {
                        assert(decreases_to!(*self => children@[i as int]));
                    }
                    if !children[i].handles(message) {
                        return false;
                    }
                    i += 1;
                }
                true
            },
            AccessFilter::Any(children) => {
                let mut i: usize = 0;
                while i < children.len()
                    invariant
                        0 <= i <= children@.len(),
                        forall|j: int|
                            0 <= j < i ==> !spec_handles(
                                #[trigger] children@[j],
                                message.deep_view(),
                            ),
                    decreases children@.len() - i,
                {
                    proof {
                        assert(decreases_to!(*self => children@[i as int]));
                    }
                    if children[i].handles(message) {
                        return true;
                    }
                    i += 1;
                }
                false
            },
        }
    }

    /// Whether this filter accepts the message.
    #[verifier::loop_isolation(false)]
    pub fn matches(&self, message: &Message) -> (r: bool)
        ensures
            r == spec_matches(*self, message.deep_view()),
        decreases *self,
    {
        match self {
            AccessFilter::Badge(pattern) => {
                let Message::Irc(irc) = message;
                match irc.get_tag("badges") {
                    Option::None => false,
                    Option::Some(badges) => {
                        let ghost badges_view = badges@;
                        let pieces = split_char(badges.as_str(), ',');
                        let mut i: usize = 0;
                        let ghost split = spec_split(badges_view, ',');
                        while i < pieces.len()
                            invariant
                                split == spec_split(badges_view, ','),
                                pieces.deep_view() == split,
                                0 <= i <= pieces@.len(),
                                pieces@.len() == split.len(),
                                forall|j: int|
                                    0 <= j < i ==> !regex_accepts(
                                        pattern@,
                                        #[trigger] split[j],
                                    ),
                            decreases pieces@.len() - i,
                        {
                            if regex_is_match(pattern.as_str(), pieces[i].as_str()) {
                                proof {
                                    assert(pieces.deep_view()[i as int] == pieces@[i as int]@);
                                    assert(regex_accepts(
                                        pattern@,
                                        spec_split(badges_view, ',')[i as int],
                                    ));
                                }
                                return true;
                            }
                            i += 1;
                        }
                        false
                    },
                }
            },
            AccessFilter::Trailing(pattern) => {
                let Message::Irc(irc) = message;
                match irc.get_trailing() {
                    Option::None => false,
                    Option::Some(trailing) => regex_is_match(pattern.as_str(), trailing.as_str()),
                }
            },
            AccessFilter::All(children) => {
                let mut i: usize = 0;
                while i < children.len()
                    invariant
                        0 <= i <= children@.len(),
                        forall|j: int|
                            0 <= j < i ==> spec_matches(
                                #[trigger] children@[j],
                                message.deep_view(),
                            ),
                    decreases children@.len() - i,
                {
                    proof {
                        assert(decreases_to!(*self => children@[i as int]));
                    }
                    if !children[i].matches(message) {
                        return false;
                    }
                    i += 1;
                }
                true
            },
            AccessFilter::Any(children) => {
                let mut i: usize = 0;
                while i < children.len()
                    invariant
                        0 <= i <= children@.len(),
                        forall|j: int|
                            0 <= j < i ==> !spec_matches(
                                #[trigger] children@[j],
                                message.deep_view(),
                            ),
                    decreases children@.len() - i,
                {
                    proof {
                        assert(decreases_to!(*self => children@[i as int]));
                    }
                    if children[i].matches(message) {
                        return true;
                    }
                    i += 1;
                }
                false
            },
        }
    }
}

/// The display text of a filter: the quoted pattern with its kind, and the
/// combinators as parenthesized `AND` / `OR` lists of their children.
pub open spec fn spec_filter_text(filter: AccessFilter) -> Seq<char>
    decreases filter,
{
    match filter {
        AccessFilter::Badge(pattern) => "'"@ + pattern@ + "' Badge"@,
        AccessFilter::Trailing(pattern) => "'"@ + pattern@ + "' Trailing"@,
        AccessFilter::All(children) => "( "@ + spec_filter_list(children@, " AND "@) + " )"@,
        AccessFilter::Any(children) => "( "@ + spec_filter_list(children@, " OR "@) + " )"@,
    }
}

/// The display texts of these filters, joined by the separator.
pub open spec fn spec_filter_list(filters: Seq<AccessFilter>, sep: Seq<char>) -> Seq<char>
    decreases filters,
{
    if filters.len() == 0 {
        Seq::<char>::empty()
    } else if filters.len() == 1 {
        spec_filter_text(filters[0])
    } else {
        spec_filter_list(filters.drop_last(), sep) + sep + spec_filter_text(filters.last())
    }
}

impl AccessFilter {
    /// The filter as display text.
    #[verifier::loop_isolation(false)]
    pub fn display_string(&self) -> (r: String)
        ensures
            r@ == spec_filter_text(*self),
        decreases *self,
    {
        match self {
            AccessFilter::Badge(pattern) => {
                let mut r = String::from_str("'");
                r.append(pattern.as_str());
                r.append("' Badge");
                proof {
                    assert(r@ =~= spec_filter_text(*self));
                }
                r
            },
            AccessFilter::Trailing(pattern) => {
                let mut r = String::from_str("'");
                r.append(pattern.as_str());
                r.append("' Trailing");
                proof {
                    assert(r@ =~= spec_filter_text(*self));
                }
                r
            },
            AccessFilter::All(children) => {
                let mut r = String::from_str("( ");
                let mut i: usize = 0;
                while i < children.len()
                    invariant
                        0 <= i <= children@.len(),
                        r@ == "( "@ + spec_filter_list(children@.take(i as int), " AND "@),
                    decreases children@.len() - i,
                {
                    if i > 0 {
                        r.append(" AND ");
                    }
                    proof {
                        assert(decreases_to!(*self => children@[i as int]));
                    }
                    let part = children[i].display_string();
                    r.append(part.as_str());
                    proof {
                        assert(children@.take(i + 1).drop_last() =~= children@.take(i as int));
                        assert(children@.take(i + 1).last() == children@[i as int]);
                        assert(r@ =~= "( "@ + spec_filter_list(children@.take(i + 1), " AND "@));
                    }
                    i += 1;
                }
                r.append(" )");
                proof {
                    assert(children@.take(children@.len() as int) =~= children@);
                    assert(r@ =~= spec_filter_text(*self));
                }
                r
            },
            AccessFilter::Any(children) => {
                let mut r = String::from_str("( ");
                let mut i: usize = 0;
                while i < children.len()
                    invariant
                        0 <= i <= children@.len(),
                        r@ == "( "@ + spec_filter_list(children@.take(i as int), " OR "@),
                    decreases children@.len() - i,
                {
                    if i > 0 {
                        r.append(" OR ");
                    }
                    proof {
                        assert(decreases_to!(*self => children@[i as int]));
                    }
                    let part = children[i].display_string();
                    r.append(part.as_str());
                    proof {
                        assert(children@.take(i + 1).drop_last() =~= children@.take(i as int));
                        assert(children@.take(i + 1).last() == children@[i as int]);
                        assert(r@ =~= "( "@ + spec_filter_list(children@.take(i + 1), " OR "@));
                    }
                    i += 1;
                }
                r.append(" )");
                proof {
                    assert(children@.take(children@.len() as int) =~= children@);
                    assert(r@ =~= spec_filter_text(*self));
                }
                r
            },
        }
    }
}

/// The tri-state answer of a filter set: `None` when no filter handles the
/// message, else `Some` of whether any handling filter matches it.
pub open spec fn spec_allowed(filters: Seq<AccessFilter>, m: MessageView) -> Option<bool> {
    if forall|i: int| 0 <= i < filters.len() ==> !spec_handles(#[trigger] filters[i], m) {
        Option::None
    } else {
        Option::Some(
            exists|i: int|
                0 <= i < filters.len() && spec_handles(#[trigger] filters[i], m) && spec_matches(
                    filters[i],
                    m,
                ),
        )
    }
}

/// The set of filters that gates command invocations for one profile.
#[derive(Debug, PartialEq, Eq)]
pub struct AccessRights {
    pub filters: Vec<AccessFilter>,
}

/// The default filter set: exactly one filter, the OR of the broadcaster
/// badge and the not-a-command trailing pattern — the broadcaster may do
/// anything, and messages that invoke no command pass.
pub open spec fn spec_default_rights(filters: Seq<AccessFilter>) -> bool {
    filters.len() == 1 && (match filters[0] {
        AccessFilter::Any(children) => {
            &&& children@.len() == 2
            &&& (children@[0] matches AccessFilter::Badge(p) && p@ == "broadcaster/*"@)
            &&& (children@[1] matches AccessFilter::Trailing(p) && p@ == "^\\s*[^!\\?¡¿]"@)
        },
        _ => false,
    })
}

impl AccessRights {
    /// The default access rights, of exactly the default shape.
    pub fn new() -> (r: AccessRights)
        ensures
            spec_default_rights(r.filters@),
    {
        let mut children: Vec<AccessFilter> = Vec::new();
        children.push(AccessFilter::broadcaster());
        children.push(AccessFilter::default_command_start());
        let mut filters: Vec<AccessFilter> = Vec::new();
        filters.push(AccessFilter::Any(children));
        AccessRights { filters }
    }

    /// Access rights with no filters: every message gets "no opinion".
    pub fn empty() -> (r: AccessRights)
        ensures
            r.filters@.len() == 0,
    {
        AccessRights { filters: Vec::new() }
    }

    /// Whether there are no filters.
    pub fn is_empty(&self) -> (r: bool)
        ensures
            r == (self.filters@.len() == 0),
    {
        self.filters.len() == 0
    }

    /// The filters, in evaluation order.
    pub fn iter(&self) -> (r: &Vec<AccessFilter>)
        ensures
            r@ == self.filters@,
    {
        &self.filters
    }

    /// Whether any filter allows the message: `None` when no filter handles
    /// it — no opinion, distinct from denied — else `Some` of whether any
    /// handling filter matches.
    pub fn allowed(&self, message: &Message) -> (r: Option<bool>)
        ensures
            r == spec_allowed(self.filters@, message.deep_view()),
    {
        let ghost fs = self.filters@;
        let ghost mv = message.deep_view();
        let mut any_handles: bool = false;
        let mut any_allows: bool = false;
        let mut i: usize = 0;
        while i < self.filters.len()
            invariant
                fs == self.filters@,
                mv == message.deep_view(),
                0 <= i <= fs.len(),
                any_handles == !(forall|j: int|
                    0 <= j < i ==> !spec_handles(#[trigger] fs[j], mv)),
                any_allows == (exists|j: int|
                    0 <= j < i && spec_handles(#[trigger] fs[j], mv) && spec_matches(fs[j], mv)),
            decreases fs.len() - i,
        {
            if self.filters[i].handles(message) {
                any_handles = true;
                if self.filters[i].matches(message) {
                    any_allows = true;
                }
            }
            i += 1;
        }
        if any_handles {
            Option::Some(any_allows)
        } else {
            Option::None
        }
    }
}

impl Default for AccessRights {
    /// The default access rights, as [`AccessRights::new`] builds them.
    fn default() -> (r: Self)
        ensures
            spec_default_rights(r.filters@),
    {
        AccessRights::new()
    }
}

} // verus!
