//! Key management service: the verified core of key custody, access control,
//! envelope encryption, key rotation and ceremony-based unlocking.
pub mod text;
pub mod errors;
pub mod keys;
pub mod acl;
pub mod primitives;
pub mod config;
pub mod kms;
pub mod audit;
pub mod key_access;
pub mod signing;
pub mod ids;
pub mod rotation;
pub mod ceremony;
pub mod value_objects;
pub mod storage;
pub mod rate_limiter;
pub mod vault;
pub mod http;
pub mod auth;
