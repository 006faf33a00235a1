//! Validation-and-assembly layer of a deployment orchestration engine.
//!
//! An [`request::EnvironmentRequest`] is the wire-format description of a
//! target environment: identity fields plus five ordered entity collections
//! (applications, containers, jobs, routers, databases). Assembly translates
//! every entity through the per-kind translation contracts of a
//! [`assembler::DeploymentTarget`], derives each router's security posture
//! from the services its routes reference, and either constructs a fully
//! validated [`domain::Environment`] aggregate or reports the first
//! translation failure as a [`domain::DomainError`].

pub mod assembler;
pub mod domain;
pub mod request;
pub mod resolver;
