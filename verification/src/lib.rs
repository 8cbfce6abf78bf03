//! Verified core of the Lab Colors runtime.
//!
//! The library holds the parts of the colour system that are decided by
//! exact integer and symbolic rules: typed wire keys, the exact encoded-sRGB8
//! screen predicates of the glow recipe, the incremental runtime state
//! machine, finite joint orders, content-addressed field quality evidence,
//! the context-bound LCS occurrence identity and its frozen release.
//! Floating-point inputs are carried as binary64 bit patterns; arithmetic in
//! binary64 stays with the callers.
#![allow(unused_imports)]

pub mod binary64;
pub mod hex;
pub mod numerics;
pub mod sha256;

pub mod field_effect;
pub mod field_presentation;
pub mod field_technical_quality;

pub mod glow;
pub mod glow_stream;
pub mod ladder;
pub mod material;

pub mod incremental_runtime;
pub mod joint;
pub mod joint_preflight;

pub mod lcs_freeze;
pub mod lcs_occurrence;

pub mod rust_source;
