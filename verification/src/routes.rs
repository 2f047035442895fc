//! The operations of the service, one per request.

pub mod task_routes;
pub mod user_routes;
