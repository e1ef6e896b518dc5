//! The cross-origin policy that the gateway applies to every route.
use vstd::prelude::*;
use crate::proxy::HttpMethod;

verus! {

pub struct CorsPolicy {
    pub allow_any_origin: bool,
    pub allowed_methods: Vec<HttpMethod>,
    pub allow_any_header: bool,
    pub allow_credentials: bool,
}

impl CorsPolicy {
    /// Every origin and header, the methods GET, POST, PUT, DELETE and
    /// OPTIONS, and credentials.
    pub fn gateway() -> (r: CorsPolicy)
        ensures
            r.allow_any_origin,
            r.allow_any_header,
            r.allow_credentials,
            r.allowed_methods@ == seq![
                HttpMethod::Get,
                HttpMethod::Post,
                HttpMethod::Put,
                HttpMethod::Delete,
                HttpMethod::Options,
            ],
    {
        let allowed_methods = vec![
            HttpMethod::Get,
            HttpMethod::Post,
            HttpMethod::Put,
            HttpMethod::Delete,
            HttpMethod::Options,
        ];
        proof {
            assert(allowed_methods@ =~= seq![
                HttpMethod::Get,
                HttpMethod::Post,
                HttpMethod::Put,
                HttpMethod::Delete,
                HttpMethod::Options,
            ]);
        }
        CorsPolicy {
            allow_any_origin: true,
            allowed_methods,
            allow_any_header: true,
            allow_credentials: true,
        }
    }
}

} // verus!
