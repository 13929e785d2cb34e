//! A client-side abstraction over a dozen URL-shortening services.
//!
//! Each service has an encoder, which describes the HTTP call that asks for a
//! short link, and a decoder, which extracts the short link from the reply.
//! The HTTP exchange itself is not part of this crate: callers hand in an
//! executor that turns a request description into a reply body.

pub mod decode;
pub mod providers;
pub mod request;
pub mod text;

use vstd::prelude::*;
use crate::providers::{parse, request, Provider};
use crate::request::Request;

verus! {

/// The short link that comes of a reply, where `raw` is the body that the
/// executor came back with, or `None` where the exchange failed. A failed
/// exchange and a reply that holds no short link both give `None`.
pub open spec fn outcome(provider: Provider, raw: Option<Seq<char>>) -> Option<Seq<char>> {
    match raw {
        Some(body) => provider.decoded(body),
        None => None,
    }
}

/// Interprets what an executor came back with: a body goes to the decoder of
/// `provider`, and a failed exchange gives `None`.
pub fn interpret(provider: Provider, raw: Option<String>) -> (short: Option<String>)
    ensures
        short.deep_view() == outcome(provider, raw.deep_view()),
{
    match raw {
        Some(body) => parse(body.as_str(), provider),
        None => None,
    }
}

/// Asks `provider` for a short link to `long_url`.
///
/// The request is built by the encoder of `provider` and handed to
/// `executor`, once. What the executor comes back with is interpreted as
/// `outcome` says.
pub fn shorten<E: FnOnce(Request) -> Option<String>>(
    provider: Provider,
    long_url: &str,
    executor: E,
) -> (short: Option<String>)
    requires
        forall|request: Request|
            request@ == provider.encoded(long_url@) ==> call_requires(executor, (request,)),
    ensures
        exists|request: Request, raw: Option<String>|
            {
                &&& request@ == provider.encoded(long_url@)
                &&& #[trigger] call_ensures(executor, (request,), raw)
                &&& short.deep_view() == outcome(provider, raw.deep_view())
            },
        (forall|request: Request, raw: Option<String>|
            call_ensures(executor, (request,), raw) ==> raw is None) ==> short is None,
{
    let request = request(long_url, provider);
    let raw = executor(request);
    interpret(provider, raw)
}

} // verus!
