pub mod deposit;
pub mod initialize;
pub mod lock;
pub mod swap;
pub mod withdraw;
