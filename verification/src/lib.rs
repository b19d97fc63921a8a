//! Verified planning logic for provisioning, exercising and removing an AWS
//! Lambda function whose parallel invocations are compared with and without a
//! reserved-concurrency limit.

pub mod text;
pub mod invocation;
pub mod command;
pub mod protocol;
pub mod clock;
pub mod archive;
pub mod setup;
pub mod teardown;
pub mod trial;

