//! A Discord slash-command toolkit for Cloudflare Workers: the decisions of the
//! interaction endpoint, of request signing checks, of the rate limiter and of the
//! Discord REST requests, each stated and proved.
use vstd::prelude::*;

pub mod interactions;
pub mod decimal;
pub mod signature;
pub mod dispatch;
pub mod limiter;
pub mod discord;

verus! {
} // verus!
