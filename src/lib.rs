//! A backend-agnostic storage facade: identity and metadata of a store, and
//! the verified decision logic of an object-storage (S3) backend.
pub mod storage_facade;
pub mod s3_facade;
pub mod listing;
pub mod object_model;
