//! The business rules that gate meal entries.

pub mod store_model;
pub mod validation_service;

pub use store_model::StoreModel;
pub use validation_service::{
    EntityKind, Plan, StoreAnswer, StoreQuery, Validation, ValidationError, ValidationResult,
    ValidationService, ValidationWarning, WarningType,
};
