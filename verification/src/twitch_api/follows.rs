//! The `Get Users Follows` endpoint: the request builder and the follow
//! records, with the follow date read into seconds since the Unix epoch.

use vstd::prelude::*;

use crate::twitch_api::Req;

verus! {

/// Whether an RFC 3339 date-and-time string is valid. Validity depends on
/// the string alone.
pub uninterp spec fn rfc3339_valid(s: Seq<char>) -> bool;

/// The instant an RFC 3339 date-and-time string names, in non-leap seconds
/// since the Unix epoch. The instant depends on the string alone.
pub uninterp spec fn rfc3339_secs(s: Seq<char>) -> int;

/// Relies on chrono's `DateTime::parse_from_rfc3339` and
/// `DateTime::timestamp`: whether the string parses, and which instant it
/// names, depend on the string alone.
#[verifier::external_body]
fn parse_rfc3339_secs(s: &str) -> (r: Option<i64>)
    ensures
        r is Some <==> rfc3339_valid(s@),
        r matches Some(t) ==> t as int == rfc3339_secs(s@),
{
    match chrono::DateTime::parse_from_rfc3339(s) {
        Ok(dt) => Some(dt.timestamp()),
        Err(_) => None,
    }
}

/// Request for the `Get Users Follows` endpoint; at least one side of the
/// relation must be given.
#[derive(Debug, PartialEq, Eq)]
pub struct GetUsersFollowsReq {
    from_id: Option<String>,
    to_id: Option<String>,
}

impl GetUsersFollowsReq {
    /// The follower side of the request, if given.
    pub closed spec fn spec_from_id(&self) -> Option<Seq<char>> {
        self.from_id.deep_view()
    }

    /// The followed side of the request, if given.
    pub closed spec fn spec_to_id(&self) -> Option<Seq<char>> {
        self.to_id.deep_view()
    }

    /// A fresh request; one of the two ids must be present.
    pub fn new(from_id: Option<String>, to_id: Option<String>) -> (r: GetUsersFollowsReq)
        requires
            from_id is Some || to_id is Some,
        ensures
            r.spec_from_id() == from_id.deep_view(),
            r.spec_to_id() == to_id.deep_view(),
    {
        GetUsersFollowsReq { from_id, to_id }
    }
}

impl Req for GetUsersFollowsReq {
    /// The endpoint with the given ids appended as query parameters: `?`
    /// starts the query, `&` separates a second parameter from the first.
    open spec fn spec_url(&self) -> Seq<char> {
        "https://api.twitch.tv/helix/users/follows"@ + (match self.spec_from_id() {
            Option::Some(from_id) => "?from_id="@ + from_id,
            Option::None => Seq::<char>::empty(),
        }) + (match self.spec_to_id() {
            Option::Some(to_id) => (if self.spec_from_id() is Some {
                "&"@
            } else {
                "?"@
            }) + "to_id="@ + to_id,
            Option::None => Seq::<char>::empty(),
        })
    }

    fn url(&self) -> (r: String)
        ensures
            r@ == self.spec_url(),
    {
        let mut r = String::from_str("https://api.twitch.tv/helix/users/follows");
        let mut has_from = false;
        match &self.from_id {
            Option::Some(from_id) => {
                r.append("?from_id=");
                r.append(from_id.as_str());
                has_from = true;
            },
            Option::None => {},
        }
        match &self.to_id {
            Option::Some(to_id) => {
                if has_from {
                    r.append("&");
                } else {
                    r.append("?");
                }
                r.append("to_id=");
                r.append(to_id.as_str());
            },
            Option::None => {},
        }
        proof {
            assert(r@ =~= self.spec_url());
        }
        r
    }
}

/// One follow relation as the platform returns it.
#[derive(Debug, PartialEq, Eq)]
pub struct Follow {
    pub from_id: String,
    pub from_name: String,
    pub to_id: String,
    pub to_name: String,
    pub followed_at: String,
}

impl Follow {
    /// The instant the follow began, in seconds since the Unix epoch, if the
    /// platform's `followed_at` text is a valid RFC 3339 date-and-time.
    pub fn followed_at(&self) -> (r: Option<i64>)
        ensures
            r is Some <==> rfc3339_valid(self.followed_at@),
            r matches Some(t) ==> t as int == rfc3339_secs(self.followed_at@),
    {
        parse_rfc3339_secs(self.followed_at.as_str())
    }
}

/// The response to a `Get Users Follows` request.
#[derive(Debug, PartialEq, Eq)]
pub struct GetFollowsRes {
    pub total: usize,
    pub data: Vec<Follow>,
}

} // verus!
