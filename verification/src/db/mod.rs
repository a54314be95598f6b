pub mod counter;

pub use counter::{Counter, CounterData, CounterType};
