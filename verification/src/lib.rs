pub mod geometry;
pub mod paint_ctx;
pub mod parent_data;
pub mod tree;
pub mod walk;
