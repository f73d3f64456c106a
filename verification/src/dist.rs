pub mod fs_model;
pub mod temp;
