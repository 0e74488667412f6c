pub mod cipher;
pub mod error;
pub mod ff;
pub mod key;
pub mod sbox;
pub mod state;
pub mod util;
