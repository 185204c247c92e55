pub mod exchange;
pub mod cancel;
pub mod initialize;
