//! The proxy protocol: which backend a route calls, how the outbound request
//! is formed, and how what came back becomes the client's response.
use vstd::prelude::*;
use vstd::string::*;
use crate::config::AppConfig;
use crate::errors::{ApiError, ErrorResponse};
use crate::json::{json_parse, parse_value};

verus! {

/// The logical name of a backend service.
#[derive(Clone, Copy, PartialEq, Eq, Structural)]
pub enum ServiceName {
    User,
    Payments,
    Sales,
    Purchasing,
    Inventory,
    Customer,
}

impl ServiceName {
    pub open spec fn spec_label(self) -> Seq<char> {
        match self {
            ServiceName::User => "User Service"@,
            ServiceName::Payments => "Payments Service"@,
            ServiceName::Sales => "Sales Service"@,
            ServiceName::Purchasing => "Purchasing Service"@,
            ServiceName::Inventory => "Inventory Service"@,
            ServiceName::Customer => "Customer Service"@,
        }
    }

    /// The name under which errors refer to the service.
    pub fn label(self) -> (r: &'static str)
        ensures
            r@ == self.spec_label(),
    {
        match self {
            ServiceName::User => "User Service",
            ServiceName::Payments => "Payments Service",
            ServiceName::Sales => "Sales Service",
            ServiceName::Purchasing => "Purchasing Service",
            ServiceName::Inventory => "Inventory Service",
            ServiceName::Customer => "Customer Service",
        }
    }
}

/// An HTTP method that the gateway forwards or allows.
#[derive(Clone, Copy, PartialEq, Eq, Structural)]
pub enum HttpMethod {
    Get,
    Post,
    Put,
    Delete,
    Options,
}

impl HttpMethod {
    pub open spec fn spec_name(self) -> Seq<char> {
        match self {
            HttpMethod::Get => "GET"@,
            HttpMethod::Post => "POST"@,
            HttpMethod::Put => "PUT"@,
            HttpMethod::Delete => "DELETE"@,
            HttpMethod::Options => "OPTIONS"@,
        }
    }

    pub fn name(self) -> (r: &'static str)
        ensures
            r@ == self.spec_name(),
    {
        match self {
            HttpMethod::Get => "GET",
            HttpMethod::Post => "POST",
            HttpMethod::Put => "PUT",
            HttpMethod::Delete => "DELETE",
            HttpMethod::Options => "OPTIONS",
        }
    }
}

/// The base URL of each backend service, fixed at startup.
pub struct ServiceRegistry {
    pub user: String,
    pub payments: String,
    pub sales: String,
    pub purchasing: String,
    pub inventory: String,
    pub customer: String,
}

impl ServiceRegistry {
    pub open spec fn spec_base(&self, name: ServiceName) -> Seq<char> {
        match name {
            ServiceName::User => self.user@,
            ServiceName::Payments => self.payments@,
            ServiceName::Sales => self.sales@,
            ServiceName::Purchasing => self.purchasing@,
            ServiceName::Inventory => self.inventory@,
            ServiceName::Customer => self.customer@,
        }
    }

    /// The registry of the configured base URLs.
    pub fn from_config(c: &AppConfig) -> (r: ServiceRegistry)
        ensures
            r.spec_base(ServiceName::User) == c.user_service_url@,
            r.spec_base(ServiceName::Payments) == c.payments_service_url@,
            r.spec_base(ServiceName::Sales) == c.sales_service_url@,
            r.spec_base(ServiceName::Purchasing) == c.purchasing_service_url@,
            r.spec_base(ServiceName::Inventory) == c.inventory_service_url@,
            r.spec_base(ServiceName::Customer) == c.customer_service_url@,
    {
        ServiceRegistry {
            user: c.user_service_url.clone(),
            payments: c.payments_service_url.clone(),
            sales: c.sales_service_url.clone(),
            purchasing: c.purchasing_service_url.clone(),
            inventory: c.inventory_service_url.clone(),
            customer: c.customer_service_url.clone(),
        }
    }

    /// The base URL of a service.
    pub fn base_url(&self, name: ServiceName) -> (r: &String)
        ensures
            r@ == self.spec_base(name),
    {
        match name {
            ServiceName::User => &self.user,
            ServiceName::Payments => &self.payments,
            ServiceName::Sales => &self.sales,
            ServiceName::Purchasing => &self.purchasing,
            ServiceName::Inventory => &self.inventory,
            ServiceName::Customer => &self.customer,
        }
    }
}

/// What a route forwards: to which service, under which path, with which
/// method, and the serialized JSON body if there is one.
pub struct UpstreamCallSpec {
    pub service: ServiceName,
    pub path: String,
    pub method: HttpMethod,
    pub body: Option<String>,
}

/// The outbound request, ready to be sent.
pub struct OutboundRequest {
    pub method: HttpMethod,
    pub url: String,
    pub body: Option<String>,
}

/// Resolves the service and forms the full URL: base URL, then path.
pub fn prepare(registry: &ServiceRegistry, call: UpstreamCallSpec) -> (r: OutboundRequest)
    ensures
        r.method == call.method,
        r.url@ == registry.spec_base(call.service) + call.path@,
        r.body == call.body,
{
    let mut url = registry.base_url(call.service).clone();
    url.append(call.path.as_str());
    OutboundRequest { method: call.method, url, body: call.body }
}

/// What the transport reports for one outbound call.
pub enum UpstreamReply {
    /// The call could not be completed; the transport's error text.
    Unreachable(String),
    /// The backend answered with this status, but its body could not be read.
    BodyUnreadable { status: u16, detail: String },
    /// The backend answered with this status and body.
    Received { status: u16, body: Vec<u8> },
}

/// The result of one proxied call.
pub enum ProxyOutcome {
    /// A 2xx answer, relayed as it came.
    Success { status: u16, body: serde_json::Value },
    /// An answer outside 2xx, relayed as it came.
    UpstreamError { status: u16, body: serde_json::Value },
    /// A failure that the gateway synthesizes, with its internal detail.
    Failure { error: ApiError, detail: String },
}

pub open spec fn is_success_status(status: u16) -> bool {
    200 <= status <= 299
}

/// The reason given when a service cannot be reached.
pub open spec fn unavailable_reason(service: ServiceName) -> Seq<char> {
    service.spec_label() + " unavailable"@
}

/// The reason given when a backend's answer cannot be parsed.
pub open spec fn parse_failure_reason() -> Seq<char> {
    "Error parsing response"@
}

pub open spec fn is_unavailable(o: ProxyOutcome, service: ServiceName, detail: Seq<char>) -> bool {
    o matches ProxyOutcome::Failure { error: ApiError::ServiceUnavailable(m), detail: d }
        && m@ == unavailable_reason(service) && d@ == detail
}

pub open spec fn is_parse_failure(o: ProxyOutcome, detail: Seq<char>) -> bool {
    o matches ProxyOutcome::Failure { error: ApiError::InternalServerError(m), detail: d }
        && m@ == parse_failure_reason() && d@ == detail
}

/// The outcome for an answer with this status whose body parsed to `body`.
pub open spec fn relayed(status: u16, body: serde_json::Value) -> ProxyOutcome {
    if is_success_status(status) {
        ProxyOutcome::Success { status, body }
    } else {
        ProxyOutcome::UpstreamError { status, body }
    }
}

/// The failure for a service that could not be reached.
pub fn unavailable(service: ServiceName, detail: String) -> (r: ProxyOutcome)
    ensures
        is_unavailable(r, service, detail@),
{
    let mut reason = String::from_str(service.label());
    reason.append(" unavailable");
    ProxyOutcome::Failure { error: ApiError::ServiceUnavailable(reason), detail }
}

/// The failure for an answer whose body could not be parsed.
pub fn parse_failure(detail: String) -> (r: ProxyOutcome)
    ensures
        is_parse_failure(r, detail@),
{
    ProxyOutcome::Failure {
        error: ApiError::InternalServerError(String::from_str("Error parsing response")),
        detail,
    }
}

/// Classifies an answer from its status and the result of parsing its body.
pub fn classify(status: u16, parsed: Result<serde_json::Value, String>) -> (r: ProxyOutcome)
    ensures
        parsed matches Ok(v) ==> r == relayed(status, v),
        parsed matches Err(e) ==> is_parse_failure(r, e@),
{
    match parsed {
        Ok(body) => {
            if 200 <= status && status <= 299 {
                ProxyOutcome::Success { status, body }
            } else {
                ProxyOutcome::UpstreamError { status, body }
            }
        },
        Err(e) => parse_failure(e),
    }
}

/// Classifies what the transport reported for a call to `service`.
pub fn forward_reply(service: ServiceName, reply: UpstreamReply) -> (r: ProxyOutcome)
    ensures
        reply matches UpstreamReply::Unreachable(e) ==> is_unavailable(r, service, e@),
        reply matches UpstreamReply::BodyUnreadable { status, detail } ==> is_parse_failure(
            r,
            detail@,
        ),
        reply matches UpstreamReply::Received { status, body } ==> match json_parse(body@) {
            Err(e) => is_parse_failure(r, e),
            Ok(v) => r == relayed(status, v),
        },
{
    match reply {
        UpstreamReply::Unreachable(e) => unavailable(service, e),
        UpstreamReply::BodyUnreadable { status, detail } => parse_failure(detail),
        UpstreamReply::Received { status, body } => classify(status, parse_value(body.as_slice())),
    }
}

/// What the gateway sends back to the client.
pub enum ResponseBody {
    /// The backend's parsed body, relayed unchanged.
    Upstream(serde_json::Value),
    /// An envelope that the gateway synthesized.
    Error(ErrorResponse),
}

pub struct GatewayResponse {
    pub status: u16,
    pub body: ResponseBody,
}

/// The response for an outcome: relayed answers keep their status and body;
/// failures go through the error taxonomy, with the detail disclosed only in
/// development mode.
pub fn respond(outcome: ProxyOutcome, dev_mode: bool) -> (r: GatewayResponse)
    ensures
        outcome matches ProxyOutcome::Success { status, body } ==> r == (GatewayResponse {
            status,
            body: ResponseBody::Upstream(body),
        }),
        outcome matches ProxyOutcome::UpstreamError { status, body } ==> r == (GatewayResponse {
            status,
            body: ResponseBody::Upstream(body),
        }),
        outcome matches ProxyOutcome::Failure { error, detail } ==> {
            &&& r.status == error.spec_status()
            &&& r.body matches ResponseBody::Error(e) && e.status == error.spec_status()
                && e.message@ == error.spec_message() && (dev_mode ==> e.details == Some(detail))
                && (!dev_mode ==> e.details is None)
        },
{
    match outcome {
        ProxyOutcome::Success { status, body } => GatewayResponse {
            status,
            body: ResponseBody::Upstream(body),
        },
        ProxyOutcome::UpstreamError { status, body } => GatewayResponse {
            status,
            body: ResponseBody::Upstream(body),
        },
        ProxyOutcome::Failure { error, detail } => {
            let envelope = error.normalize(Some(detail), dev_mode);
            GatewayResponse { status: envelope.status, body: ResponseBody::Error(envelope) }
        },
    }
}

/// The client's view of a gateway failure: this status and message, with the
/// detail disclosed exactly in development mode.
pub open spec fn is_error_response(
    r: GatewayResponse,
    status: u16,
    message: Seq<char>,
    detail: Seq<char>,
    dev_mode: bool,
) -> bool {
    &&& r.status == status
    &&& r.body matches ResponseBody::Error(e) && e.status == status && e.message@ == message && (
    dev_mode ==> (e.details matches Some(d) && d@ == detail)) && (!dev_mode ==> e.details is None)
}

/// Runs the proxy protocol on what the transport reported for a call to
/// `service`, and forms the client's response.
pub fn complete(service: ServiceName, reply: UpstreamReply, dev_mode: bool) -> (r: GatewayResponse)
    ensures
        reply matches UpstreamReply::Unreachable(e) ==> is_error_response(
            r,
            503,
            "Service unavailable: "@ + unavailable_reason(service),
            e@,
            dev_mode,
        ),
        reply matches UpstreamReply::BodyUnreadable { status, detail } ==> is_error_response(
            r,
            500,
            "Internal server error: "@ + parse_failure_reason(),
            detail@,
            dev_mode,
        ),
        reply matches UpstreamReply::Received { status, body } ==> match json_parse(body@) {
            Err(e) => is_error_response(
                r,
                500,
                "Internal server error: "@ + parse_failure_reason(),
                e,
                dev_mode,
            ),
            Ok(v) => r == (GatewayResponse { status, body: ResponseBody::Upstream(v) }),
        },
{
    respond(forward_reply(service, reply), dev_mode)
}

} // verus!
