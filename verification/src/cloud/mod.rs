//! Data read from AWS services and the clients that read it. The calls
//! themselves are made by the application; what stands here is the shape of
//! the data and the computations applied to it.
pub mod alarms;
pub mod apig;
pub mod cfn;
pub mod cloudtrail;
pub mod config;
pub mod ec2;
pub mod ecr;
pub mod efs;
pub mod fsx;
pub mod iam;
pub mod kms;
pub mod lambda;
pub mod logs;
pub mod s3;
pub mod sqs;
