pub mod frame_alloc;
pub mod types;
