pub mod q4_k_m;
pub mod utils;
