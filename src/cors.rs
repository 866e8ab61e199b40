use vstd::prelude::*;

verus! {

/// An HTTP method a browser may ask to use across origins.
#[derive(Clone, Copy, PartialEq, Eq, Structural, Debug)]
pub enum InboundMethod {
    Get,
    Post,
}

/// Which cross-origin requests the relay admits.
pub struct CorsPolicy {
    /// Whether a request from any origin is admitted.
    pub any_origin: bool,
    pub allowed_methods: Vec<InboundMethod>,
    /// Header names, in lower case.
    pub allowed_headers: Vec<String>,
}

/// The relay's policy: any origin, the methods GET and POST, and of the
/// request headers only `content-type`.
pub fn cors_policy() -> (r: CorsPolicy)
    ensures
        r.any_origin,
        r.allowed_methods@ == seq![InboundMethod::Get, InboundMethod::Post],
        r.allowed_headers@.len() == 1,
        r.allowed_headers@[0]@ == "content-type"@,
{
    let mut headers: Vec<String> = Vec::new();
    headers.push(String::from_str("content-type"));
    CorsPolicy {
        any_origin: true,
        allowed_methods: vec![InboundMethod::Get, InboundMethod::Post],
        allowed_headers: headers,
    }
}

} // verus!
