//! Admission-control decision engine for workload priority classes.
//!
//! The crate has two units, run in sequence by a surrounding policy host:
//! a configuration validator ([`settings`]), which checks a policy
//! configuration for internal contradictions before it is trusted, and a
//! priority-class evaluator ([`evaluate`]), which maps a pod's optional
//! priority-class name and a validated configuration to a decision:
//! accept unchanged, accept with a mutation that assigns a default class,
//! or reject with a human-readable reason.

pub mod evaluate;
pub mod settings;
