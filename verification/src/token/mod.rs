pub mod token;

pub use token::BlockChain;
