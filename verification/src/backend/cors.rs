//! The cross-origin policy under which the server answers the web client.

use vstd::prelude::*;
use vstd::string::*;

use crate::backend::config::Config;

verus! {

/// The HTTP methods that the policy names.
pub enum HttpMethod {
    Get,
    Post,
    Options,
}

/// Which origins, methods and headers may reach the server from a browser,
/// and whether credentials may be sent.
pub struct CorsPolicy {
    pub allowed_origins: Vec<String>,
    pub allowed_methods: Vec<HttpMethod>,
    pub allowed_headers: Vec<String>,
    pub allow_credentials: bool,
}

/// The policy of a server with configuration `config`: exactly its
/// development and production origins, the methods GET, POST and OPTIONS,
/// the headers Authorization, Accept and Content-Type, and credentials.
pub fn cors_policy(config: &Config) -> (p: CorsPolicy)
    ensures
        p.allowed_origins@.len() == 2,
        p.allowed_origins@[0]@ == config@.dev_url,
        p.allowed_origins@[1]@ == config@.prod_url,
        p.allowed_methods@ == seq![HttpMethod::Get, HttpMethod::Post, HttpMethod::Options],
        p.allowed_headers@.len() == 3,
        p.allowed_headers@[0]@ == "Authorization"@,
        p.allowed_headers@[1]@ == "Accept"@,
        p.allowed_headers@[2]@ == "Content-Type"@,
        p.allow_credentials,
{
    let mut allowed_origins: Vec<String> = Vec::new();
    allowed_origins.push(config.dev_url().clone());
    allowed_origins.push(config.prod_url().clone());
    let mut allowed_methods: Vec<HttpMethod> = Vec::new();
    allowed_methods.push(HttpMethod::Get);
    allowed_methods.push(HttpMethod::Post);
    allowed_methods.push(HttpMethod::Options);
    let mut allowed_headers: Vec<String> = Vec::new();
    allowed_headers.push(String::from_str("Authorization"));
    allowed_headers.push(String::from_str("Accept"));
    allowed_headers.push(String::from_str("Content-Type"));
    assert(allowed_methods@ =~= seq![HttpMethod::Get, HttpMethod::Post, HttpMethod::Options]);
    CorsPolicy { allowed_origins, allowed_methods, allowed_headers, allow_credentials: true }
}

} // verus!
