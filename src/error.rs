use vstd::prelude::*;

verus! {

/// Failures of the event registry.
#[derive(Clone, Copy, Debug, PartialEq, Eq, Structural)]
pub enum EventRegistryError {
    EventAlreadyExists,
    EventNotFound,
    Unauthorized,
    InvalidAddress,
    InvalidFeePercent,
    EventInactive,
    NotInitialized,
    AlreadyInitialized,
}

impl EventRegistryError {
    /// The numeric code that the host's error channel carries for the failure.
    pub open spec fn spec_code(&self) -> u32 {
        match self {
            EventRegistryError::EventAlreadyExists => 1,
            EventRegistryError::EventNotFound => 2,
            EventRegistryError::Unauthorized => 3,
            EventRegistryError::InvalidAddress => 4,
            EventRegistryError::InvalidFeePercent => 5,
            EventRegistryError::EventInactive => 6,
            EventRegistryError::NotInitialized => 7,
            EventRegistryError::AlreadyInitialized => 8,
        }
    }

    /// Numeric code of the failure, as carried on the host's error channel.
    pub fn code(&self) -> (r: u32)
        ensures
            r == self.spec_code(),
    {
        match self {
            EventRegistryError::EventAlreadyExists => 1,
            EventRegistryError::EventNotFound => 2,
            EventRegistryError::Unauthorized => 3,
            EventRegistryError::InvalidAddress => 4,
            EventRegistryError::InvalidFeePercent => 5,
            EventRegistryError::EventInactive => 6,
            EventRegistryError::NotInitialized => 7,
            EventRegistryError::AlreadyInitialized => 8,
        }
    }

    /// The text that describes the failure.
    pub open spec fn text(&self) -> Seq<char> {
        match self {
            EventRegistryError::EventAlreadyExists => "Event already exists"@,
            EventRegistryError::EventNotFound => "Event not found"@,
            EventRegistryError::Unauthorized => "Caller not authorized for action"@,
            EventRegistryError::InvalidAddress => "Invalid Stellar address"@,
            EventRegistryError::InvalidFeePercent => "Fee percent must be between 0 and 10000"@,
            EventRegistryError::EventInactive => "Trying to interact with inactive event"@,
            EventRegistryError::NotInitialized => "Contract not initialized"@,
            EventRegistryError::AlreadyInitialized => "Contract already initialized"@,
        }
    }

    /// Human-readable description of the failure.
    pub fn message(&self) -> (r: String)
        ensures
            r@ == self.text(),
    {
        match self {
            EventRegistryError::EventAlreadyExists => "Event already exists".to_owned(),
            EventRegistryError::EventNotFound => "Event not found".to_owned(),
            EventRegistryError::Unauthorized => "Caller not authorized for action".to_owned(),
            EventRegistryError::InvalidAddress => "Invalid Stellar address".to_owned(),
            EventRegistryError::InvalidFeePercent => "Fee percent must be between 0 and 10000".to_owned(),
            EventRegistryError::EventInactive => "Trying to interact with inactive event".to_owned(),
            EventRegistryError::NotInitialized => "Contract not initialized".to_owned(),
            EventRegistryError::AlreadyInitialized => "Contract already initialized".to_owned(),
        }
    }
}

/// Failures of the payment ledger.
#[derive(Clone, Copy, Debug, PartialEq, Eq, Structural)]
pub enum Error {
    InvalidAmount,
    InsufficientBalance,
    PaymentNotFound,
    PaymentAlreadyConfirmed,
    InvalidEventId,
    /// A failure of the event registry, re-signalled by the payment ledger.
    EventRegistryError(EventRegistryError),
    TransferFailed,
    Overflow,
    Unauthorized,
    /// The ledger has no configuration yet.
    NotInitialized,
}

/// Failures of the payment ledger's configuration.
#[derive(Clone, Copy, Debug, PartialEq, Eq, Structural)]
pub enum TicketPaymentError {
    AlreadyInitialized,
    InvalidAddress,
    NotInitialized,
    InvalidFeePercent,
}

impl TicketPaymentError {
    /// The text that describes the failure.
    pub open spec fn text(&self) -> Seq<char> {
        match self {
            TicketPaymentError::AlreadyInitialized => "Contract already initialized"@,
            TicketPaymentError::InvalidAddress => "Invalid Stellar address"@,
            TicketPaymentError::NotInitialized => "Contract not initialized"@,
            TicketPaymentError::InvalidFeePercent => "Fee percent must be between 0 and 10000"@,
        }
    }

    /// Human-readable description of the failure.
    pub fn message(&self) -> (r: String)
        ensures
            r@ == self.text(),
    {
        match self {
            TicketPaymentError::AlreadyInitialized => "Contract already initialized".to_owned(),
            TicketPaymentError::InvalidAddress => "Invalid Stellar address".to_owned(),
            TicketPaymentError::NotInitialized => "Contract not initialized".to_owned(),
            TicketPaymentError::InvalidFeePercent => "Fee percent must be between 0 and 10000".to_owned(),
        }
    }
}

} // verus!
