pub mod build_call;
pub mod future;
pub mod ownership;
pub mod transform_call;
