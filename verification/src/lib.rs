//! Planning, artifact registry, and host-side program contracts for a Metal
//! proving backend of the stwo prover.

pub mod workload_contract;
pub mod planner;
pub mod artifact;
pub mod manifest;
pub mod text;
pub mod generated_policy;
pub mod field;
pub mod execution_plan;
pub mod arith;
pub mod capability;
pub mod eval_program;
pub mod eval_validation;
pub mod semantic_hash;
pub mod eval_lowering;
pub mod lowering;
pub mod eval_dispatch;
pub mod sampled_values;
pub mod field_ops;
pub mod eval_interpreter;
pub mod prove_runtime;
pub mod interaction_trace;
pub mod quotient;
pub mod benchmark;
pub mod eval_device;
pub mod quotient_staging;
pub mod recording;
pub mod decommit;
pub mod constraint_dag;
pub mod fri_commitment;
pub mod accumulation;
pub mod fri_fold;
pub mod merkle_lifted;
