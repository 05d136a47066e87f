//! What a request to Discord's REST API is made of, and how its answer is read.
use vstd::prelude::*;

verus! {

/// The HTTP methods that the requests use.
#[derive(Clone, Copy, PartialEq, Eq, Structural, Debug)]
pub enum Method {
    Get,
    Post,
    Patch,
    Delete,
}

/// A request to Discord's REST API: its method, its path, and whether the object it
/// concerns goes with it as a JSON body.
pub struct RequestSpec {
    pub method: Method,
    pub path: String,
    pub with_body: bool,
}

/// The value of a request.
pub struct RequestSpecView {
    pub method: Method,
    pub path: Seq<char>,
    pub with_body: bool,
}

impl View for RequestSpec {
    type V = RequestSpecView;

    open spec fn view(&self) -> RequestSpecView {
        RequestSpecView { method: self.method, path: self.path@, with_body: self.with_body }
    }
}

/// A request that can be sent to Discord: it names the rate-limit bucket that it
/// counts against, and says what is sent.
pub trait Requestable {
    /// The name of the rate-limit bucket of the request.
    spec fn spec_bucket(&self) -> Seq<char>;

    /// What is sent.
    spec fn spec_request(&self) -> RequestSpecView;

    /// The name of the rate-limit bucket of the request.
    fn ratelimit_bucket(&self) -> (bucket: String)
        ensures
            bucket@ == self.spec_bucket(),
    ;

    /// What is sent.
    fn build_request(&self) -> (r: RequestSpec)
        ensures
            r@ == self.spec_request(),
    ;
}

/// The name of an HTTP method, as it opens a rate-limit bucket.
pub open spec fn method_name(m: Method) -> Seq<char> {
    match m {
        Method::Get => "GET"@,
        Method::Post => "POST"@,
        Method::Patch => "PATCH"@,
        Method::Delete => "DELETE"@,
    }
}

/// How an answer of Discord is read, by its status code.
#[derive(Clone, Copy, PartialEq, Eq, Structural, Debug)]
pub enum ResponseClass {
    /// 200 to 299: the request succeeded and the body is the object asked for.
    Success,
    /// 400 to 499: the request was refused and the body says why.
    RequestError,
    /// Any other code: the server failed and the body says why.
    ServerError,
}

/// The class of an answer with this status code.
pub open spec fn spec_response_class(status: u16) -> ResponseClass {
    if 200 <= status <= 299 {
        ResponseClass::Success
    } else if 400 <= status <= 499 {
        ResponseClass::RequestError
    } else {
        ResponseClass::ServerError
    }
}

/// The class of an answer with this status code.
pub fn classify_status(status: u16) -> (c: ResponseClass)
    ensures
        c == spec_response_class(status),
{
    if 200 <= status && status <= 299 {
        ResponseClass::Success
    } else if 400 <= status && status <= 499 {
        ResponseClass::RequestError
    } else {
        ResponseClass::ServerError
    }
}

} // verus!
