pub mod logging;
pub mod retry;

pub use logging::{ConsoleLogger, LoggingPolicy};
pub use retry::{ExponentialBackoff, RetryPolicy};
