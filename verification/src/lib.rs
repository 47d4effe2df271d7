pub mod address;
pub mod binary;
pub mod controller;
pub mod entities;
pub mod execute;
pub mod instances;
pub mod result;
pub mod sign;
pub mod validation;
