//! The user-service routes: each declares what it forwards.
use vstd::prelude::*;
use vstd::string::*;
use crate::json::{json_quoted, quote};
use crate::proxy::{HttpMethod, ServiceName, UpstreamCallSpec};

verus! {

pub struct LoginRequest {
    pub email: String,
    pub password: String,
}

pub struct RegisterRequest {
    pub name: String,
    pub email: String,
    pub password: String,
}

pub struct RefreshTokenRequest {
    pub refresh_token: String,
}

/// One `"key":value` member of a JSON object, the value a quoted text.
pub open spec fn member(key: Seq<char>, value: Seq<char>) -> Seq<char> {
    json_quoted(key) + ":"@ + json_quoted(value)
}

fn push_member(out: &mut String, key: &str, value: &str)
    ensures
        final(out)@ == old(out)@ + member(key@, value@),
{
    let k = quote(key);
    let v = quote(value);
    out.append(k.as_str());
    out.append(":");
    out.append(v.as_str());
}

impl LoginRequest {
    pub open spec fn spec_json(&self) -> Seq<char> {
        "{"@ + member("email"@, self.email@) + ","@ + member("password"@, self.password@) + "}"@
    }

    /// The compact JSON object of the request, members in declaration order.
    pub fn to_json(&self) -> (r: String)
        ensures
            r@ == self.spec_json(),
    {
        let mut out = String::from_str("{");
        push_member(&mut out, "email", self.email.as_str());
        out.append(",");
        push_member(&mut out, "password", self.password.as_str());
        out.append("}");
        out
    }
}

impl RegisterRequest {
    pub open spec fn spec_json(&self) -> Seq<char> {
        "{"@ + member("name"@, self.name@) + ","@ + member("email"@, self.email@) + ","@
            + member("password"@, self.password@) + "}"@
    }

    /// The compact JSON object of the request, members in declaration order.
    pub fn to_json(&self) -> (r: String)
        ensures
            r@ == self.spec_json(),
    {
        let mut out = String::from_str("{");
        push_member(&mut out, "name", self.name.as_str());
        out.append(",");
        push_member(&mut out, "email", self.email.as_str());
        out.append(",");
        push_member(&mut out, "password", self.password.as_str());
        out.append("}");
        out
    }
}

impl RefreshTokenRequest {
    pub open spec fn spec_json(&self) -> Seq<char> {
        "{"@ + member("refresh_token"@, self.refresh_token@) + "}"@
    }

    /// The compact JSON object of the request.
    pub fn to_json(&self) -> (r: String)
        ensures
            r@ == self.spec_json(),
    {
        let mut out = String::from_str("{");
        push_member(&mut out, "refresh_token", self.refresh_token.as_str());
        out.append("}");
        out
    }
}

/// A POST to the user service under `path`, with an optional body.
pub open spec fn user_post(c: UpstreamCallSpec, path: Seq<char>, body: Option<Seq<char>>) -> bool {
    &&& c.service == ServiceName::User
    &&& c.method == HttpMethod::Post
    &&& c.path@ == path
    &&& match (c.body, body) {
        (Some(b), Some(t)) => b@ == t,
        (None, None) => true,
        _ => false,
    }
}

/// Forwards a login to the user service.
pub fn login(data: &LoginRequest) -> (r: UpstreamCallSpec)
    ensures
        user_post(r, "/api/users/login"@, Some(data.spec_json())),
{
    UpstreamCallSpec {
        service: ServiceName::User,
        path: String::from_str("/api/users/login"),
        method: HttpMethod::Post,
        body: Some(data.to_json()),
    }
}

/// Forwards a registration to the user service.
pub fn register(data: &RegisterRequest) -> (r: UpstreamCallSpec)
    ensures
        user_post(r, "/api/users/register"@, Some(data.spec_json())),
{
    UpstreamCallSpec {
        service: ServiceName::User,
        path: String::from_str("/api/users/register"),
        method: HttpMethod::Post,
        body: Some(data.to_json()),
    }
}

/// Forwards a token refresh to the user service.
pub fn refresh(data: &RefreshTokenRequest) -> (r: UpstreamCallSpec)
    ensures
        user_post(r, "/api/users/refresh"@, Some(data.spec_json())),
{
    UpstreamCallSpec {
        service: ServiceName::User,
        path: String::from_str("/api/users/refresh"),
        method: HttpMethod::Post,
        body: Some(data.to_json()),
    }
}

/// Forwards a logout to the user service, with no body.
pub fn logout() -> (r: UpstreamCallSpec)
    ensures
        user_post(r, "/api/users/logout"@, None),
{
    UpstreamCallSpec {
        service: ServiceName::User,
        path: String::from_str("/api/users/logout"),
        method: HttpMethod::Post,
        body: None,
    }
}

} // verus!
