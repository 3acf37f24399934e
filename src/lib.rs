//! Request-processing guards for a task API: bearer-token verification,
//! identity resolution, role-gated access control, request observation and
//! the layering of those stages per route group.

pub mod text;
pub mod role;
pub mod error;
pub mod claims;
pub mod token;
pub mod identity;
pub mod guard;
pub mod pipeline;
pub mod observe;
pub mod config;
pub mod logging;
pub mod models;
pub mod provider;
pub mod handlers;
