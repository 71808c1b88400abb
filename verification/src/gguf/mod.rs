pub mod kv;
pub mod tensor_names;
pub mod types;
pub mod writer;
