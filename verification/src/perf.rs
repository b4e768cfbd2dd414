//! Load testing: planning, dispatching and measuring many requests.

pub mod dataset;
pub mod dispatcher;
pub mod histogram;
pub mod limiter;
pub mod metrics;
pub mod planner;
pub mod report;
pub mod runner;
