//! The kinds of action message and the topic prefix of each.
use vstd::prelude::*;

verus! {

/// A kind of action message, naming the first segment of its topics.
pub trait ActionType {
    spec fn spec_prefix() -> Seq<char>;

    fn prefix() -> (r: &'static str)
        ensures
            r@ == Self::spec_prefix(),
    ;
}

/// Status reports, under `data`.
#[derive(Debug, Clone, Copy, PartialEq, Eq, Structural)]
pub struct Status;

/// Requests, under `request`.
#[derive(Debug, Clone, Copy, PartialEq, Eq, Structural)]
pub struct Request;

/// Replies to requests, under `response`.
#[derive(Debug, Clone, Copy, PartialEq, Eq, Structural)]
pub struct Response;

impl ActionType for Status {
    open spec fn spec_prefix() -> Seq<char> {
        "data"@
    }

    fn prefix() -> (r: &'static str) {
        "data"
    }
}

impl ActionType for Request {
    open spec fn spec_prefix() -> Seq<char> {
        "request"@
    }

    fn prefix() -> (r: &'static str) {
        "request"
    }
}

impl ActionType for Response {
    open spec fn spec_prefix() -> Seq<char> {
        "response"@
    }

    fn prefix() -> (r: &'static str) {
        "response"
    }
}

} // verus!
