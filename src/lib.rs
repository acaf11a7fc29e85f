pub mod codec;
pub mod decimal;
pub mod id;
pub mod object_id;
pub mod laws;
