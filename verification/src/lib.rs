//! A verified argument-rewriting engine for a fuzzing compiler shim.
//!
//! The crate models the decision core of a `clang`/`clang++` wrapper that
//! injects a coverage-instrumentation pass and a fuzzing runtime object into
//! an existing compiler invocation.  The rewriting itself — classifying
//! arguments, suppressing duplicates of directed-fuzzing parameters, tracking
//! sanitizer and hardening policies, and choosing the runtime object to link —
//! is pure logic over plain values and is verified here.  Reading environment
//! variables, probing the filesystem and spawning the real compiler are left
//! to the surrounding program, which hands this library snapshots of what it
//! read and takes back the rewritten argument vector or a structured error.

pub mod artifacts;
pub mod config;
pub mod props;
pub mod rewrite;
pub mod strutil;
