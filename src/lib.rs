pub mod classify;
pub mod instrument;
pub mod pool;
pub mod service;

pub use classify::{policy_fn, Classification, Policy, PolicyFn};
pub use instrument::{Instrument, InstrumentFuture, NoInstrument};
pub use pool::{Exhausted, Outcome, Pool, ProtocolViolation, Ticket, DEFAULT_CEILING};
pub use service::{QualityOfService, QualityOfServiceLayer, ResponseFuture};
