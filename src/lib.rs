//! Event-ticketing ledgers: an event registry and a payment ledger, with
//! their storage, indices, authorization checks and fee splitting.
//!
//! Both ledgers run inside a host that orders calls, checks capability
//! proofs, supplies the time, carries out requested transfers and delivers
//! notifications. Each operation either takes effect whole or, on error,
//! leaves its ledger exactly as it was.
pub mod address;
pub mod auth;
pub mod error;
pub mod events;
pub mod ids;
pub mod laws;
pub mod payment;
pub mod registry;
pub mod table;

pub use address::Address;
pub use error::{Error, EventRegistryError, TicketPaymentError};
pub use events::{
    InitializationEvent, Notification, PaymentConfirmed, PaymentFailed, PaymentProcessed, Transfer,
};
pub use payment::{split_amount, Payment, PaymentConfig, PaymentLedger, PaymentStatus};
pub use registry::{EventInfo, EventPaymentInfo, EventRegistry, RegistryConfig};
