//! Requests against the platform's HTTP API: each request type renders the
//! URL it stands for; sending the request and reading the response stay with
//! the embedding layer.

use vstd::prelude::*;

pub mod auth;
pub mod follows;
pub mod users;

verus! {

/// A request with a fixed URL. `spec_url` pins, per request type, the text
/// that `url` renders.
pub trait Req: Sized {
    /// The URL this request stands for.
    spec fn spec_url(&self) -> Seq<char>;

    /// Renders the URL.
    fn url(&self) -> (r: String)
        ensures
            r@ == self.spec_url(),
    ;
}

} // verus!
