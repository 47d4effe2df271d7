pub mod types_validation;
