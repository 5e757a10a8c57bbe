//! The outcome of a routing decision, and the router that makes it.
use vstd::prelude::*;

use crate::error::{plain_error, CoreError, ErrorCode, ErrorView, FrameworkCode};
use crate::pipeline::message::PipelineMessage;
use crate::router::context::{RoutingContext, RoutingSnapshot};

verus! {

/// Names a service that the host made for one request.
pub type ServiceId = u64;

/// A route was found: the service that is bound to it, and what the router wants to be known.
#[derive(Debug, PartialEq, Eq)]
pub struct RouteDecision {
    pub service: ServiceId,
    pub warnings: Vec<String>,
}

/// Why no route was found. Patterns and identities are held in the form in which they are shown.
#[derive(Debug, PartialEq, Eq)]
pub enum RouteError {
    NotFound { pattern: String },
    PolicyDenied { reason: String },
    ServiceUnavailable { id: String, source: CoreError },
    Internal(CoreError),
    Other { shown: String },
}

/// A refusal of a router, and the form in which it is shown.
#[derive(Debug, PartialEq, Eq)]
pub struct RouteRejection {
    pub error: RouteError,
    pub shown: String,
}

/// A router, as the host provides it.
pub trait DynRouter {
    /// A look at what the router knows.
    fn snapshot(&self) -> RoutingSnapshot<'_>;

    /// Decides where a request goes.
    fn route_dyn(
        &self,
        context: RoutingContext<'_, PipelineMessage>,
    ) -> Result<RouteDecision, RouteRejection>;
}

/// The error that a caller sees for a refusal.
pub open spec fn refusal_error(error: RouteError) -> ErrorView {
    let code = ErrorCode::Framework(FrameworkCode::AppRoutingFailed);
    match error {
        RouteError::NotFound { pattern } => plain_error(
            code,
            "route pattern `"@ + pattern@ + "` not found"@,
        ),
        RouteError::PolicyDenied { reason } => plain_error(
            code,
            "route rejected by policy: "@ + reason@,
        ),
        RouteError::ServiceUnavailable { id, source } => ErrorView {
            cause: Some(Box::new(source@)),
            ..plain_error(code, "service bound to route `"@ + id@ + "` is unavailable"@)
        },
        RouteError::Internal(inner) => inner@,
        RouteError::Other { shown } => plain_error(code, "unexpected route error: "@ + shown@),
    }
}

/// Turns a refusal into the error that a caller sees.
pub fn refusal_to_error(error: RouteError) -> (seen: CoreError)
    ensures
        seen@ == refusal_error(error),
{
    let code = ErrorCode::Framework(FrameworkCode::AppRoutingFailed);
    match error {
        RouteError::NotFound { pattern } => {
            let mut message = "route pattern `".to_owned();
            message.append(pattern.as_str());
            message.append("` not found");
            CoreError::new(code, message)
        },
        RouteError::PolicyDenied { reason } => {
            let mut message = "route rejected by policy: ".to_owned();
            message.append(reason.as_str());
            CoreError::new(code, message)
        },
        RouteError::ServiceUnavailable { id, source } => {
            let mut message = "service bound to route `".to_owned();
            message.append(id.as_str());
            message.append("` is unavailable");
            CoreError::new(code, message).with_cause(source)
        },
        RouteError::Internal(inner) => inner,
        RouteError::Other { shown } => {
            let mut message = "unexpected route error: ".to_owned();
            message.append(shown.as_str());
            CoreError::new(code, message)
        },
    }
}

} // verus!
