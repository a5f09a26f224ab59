//! Verified core of the wardrobe platform: byte-level image structure checks,
//! the receipt image network rules, the PhotoKit wire protocol and reconcile
//! decisions, owner and person detection rules, page cursors, and the record
//! codecs that the repositories store.

pub mod text;
pub mod number_text;
pub mod digest_text;
pub mod uuid_text;
pub mod platform_error;
pub mod store;

pub mod receipt_image_codes;
pub mod receipt_image_clock;
pub mod receipt_url;
pub mod address_policy;
pub mod receipt_response;
pub mod image_structure;
pub mod receipt_intelligence;
pub mod receipt_intelligence_request;

pub mod photokit_types;
pub mod photokit_wire;
pub mod photokit_control;
pub mod photokit_records;
pub mod photokit_locator;
pub mod photokit_keychain;
pub mod photokit_statements;
pub mod photokit_repository;
pub mod photokit_materialize;
pub mod photokit_finalize;
pub mod photokit_coordinator;
pub mod photokit_setup;
pub mod expiring_table;

pub mod photo_codecs;
pub mod person_codecs;
pub mod photo_owner_closure;
pub mod owner_decision;
pub mod detection_retry;
pub mod page_cursor;
pub mod segmentation_outcome;
