pub mod decode;
pub mod encode;
pub mod get_randomness;
pub mod generate;
pub mod rowid;
pub mod verify;
