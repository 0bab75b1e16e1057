//! Decision logic of an uptime monitor: input validation for the HTTP API,
//! bearer-token handling, scheduling of website checks, interpretation of
//! check results and the alert / retry protocol of the notifier.
pub mod bytes;
pub mod clock;
pub mod http;
pub mod text;
pub mod status;
pub mod analytics;
pub mod schedule;
pub mod stream;
pub mod jobs;
pub mod alerts;
pub mod api;
pub mod auth;
pub mod email;
