pub mod functional_data_structures;
pub mod error_handling;
pub mod ownership;
