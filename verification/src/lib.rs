pub mod context;
pub mod instruction;
pub mod laws;
pub mod mint;
pub mod program;
pub mod pubkey;
pub mod publish;
pub mod state;
pub mod utils;
