pub mod lanes;
