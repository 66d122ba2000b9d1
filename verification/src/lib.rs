//! Verified core of a terminal console for AWS services.
use vstd::prelude::*;

pub mod sort;
pub mod text;
pub mod timestamp;
pub mod url;
pub mod json;
pub mod common;
pub mod table;
pub mod columns;
pub mod apig;
pub mod app;
pub mod ec2;
pub mod ecr;
pub mod efs;
pub mod fsx;
pub mod iam;
pub mod cfn;
pub mod cloudtrail;
pub mod cw;
pub mod region;
pub mod profile;
pub mod cloud;

verus! {
} // verus!
