//! The `Get Users` endpoint: the request builder and the response records.

use vstd::prelude::*;

use crate::text::clone_strings;
use crate::text::spec_join;
use crate::text::join_with;
use crate::twitch_api::Req;

verus! {

/// Builder for a `Get Users` request: the user names to look up, the host to
/// ask, and whether to use TLS.
#[derive(Debug, PartialEq, Eq)]
pub struct GetUsersReq {
    usernames: Vec<String>,
    base: String,
    protocol: String,
}

impl GetUsersReq {
    /// A fresh request for these user names, against `api.twitch.tv` over
    /// `https`.
    pub fn new(usernames: Vec<String>) -> (r: GetUsersReq)
        ensures
            r.spec_usernames() == usernames.deep_view(),
            r.spec_base() == "api.twitch.tv"@,
            r.spec_protocol() == "https"@,
    {
        GetUsersReq {
            usernames,
            base: String::from_str("api.twitch.tv"),
            protocol: String::from_str("https"),
        }
    }

    /// The user names the request asks for.
    pub closed spec fn spec_usernames(&self) -> Seq<Seq<char>> {
        self.usernames.deep_view()
    }

    /// The host the request goes to.
    pub closed spec fn spec_base(&self) -> Seq<char> {
        self.base@
    }

    /// The protocol the request uses.
    pub closed spec fn spec_protocol(&self) -> Seq<char> {
        self.protocol@
    }

    /// The user names, in order.
    pub fn usernames(&self) -> (r: &Vec<String>)
        ensures
            r.deep_view() == self.spec_usernames(),
    {
        &self.usernames
    }

    /// Replaces the host to ask.
    pub fn base(&mut self, base: String)
        ensures
            final(self).spec_base() == base@,
            final(self).spec_usernames() == old(self).spec_usernames(),
            final(self).spec_protocol() == old(self).spec_protocol(),
    {
        self.base = base;
    }

    /// Chooses the protocol: `https` with TLS, `http` without.
    pub fn tls(&mut self, tls: bool)
        ensures
            final(self).spec_protocol() == (if tls {
                "https"@
            } else {
                "http"@
            }),
            final(self).spec_usernames() == old(self).spec_usernames(),
            final(self).spec_base() == old(self).spec_base(),
    {
        self.protocol = if tls {
            String::from_str("https")
        } else {
            String::from_str("http")
        };
    }

    /// A request for a copied list of user names.
    pub fn from_names(usernames: &Vec<String>) -> (r: GetUsersReq)
        ensures
            r.spec_usernames() == usernames.deep_view(),
            r.spec_base() == "api.twitch.tv"@,
            r.spec_protocol() == "https"@,
    {
        GetUsersReq::new(clone_strings(usernames))
    }
}

impl Req for GetUsersReq {
    /// `protocol://base/kraken/users?login=` and the names joined by commas.
    open spec fn spec_url(&self) -> Seq<char> {
        self.spec_protocol() + "://"@ + self.spec_base() + "/kraken/users?login="@ + spec_join(
            self.spec_usernames(),
            ","@,
        )
    }

    fn url(&self) -> (r: String)
        ensures
            r@ == self.spec_url(),
    {
        let mut r = self.protocol.clone();
        r.append("://");
        r.append(self.base.as_str());
        r.append("/kraken/users?login=");
        let joined = join_with(&self.usernames, ",");
        r.append(joined.as_str());
        proof {
            assert(r@ =~= self.spec_url());
        }
        r
    }
}

/// The response to a `Get Users` request: how many users matched, and their
/// records.
#[derive(Debug, PartialEq, Eq)]
pub struct GetUsersRes {
    pub total: usize,
    pub users: Vec<UserRes>,
}

/// One user record as the platform returns it.
#[derive(Debug, PartialEq, Eq)]
pub struct UserRes {
    pub id: String,
    pub bio: Option<String>,
    pub created_at: String,
    pub display_name: String,
    pub logo: String,
    pub name: String,
    pub typ: String,
    pub updated_at: String,
}

} // verus!
