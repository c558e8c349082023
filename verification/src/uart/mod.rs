pub mod logger;
pub mod ns16550a;
