use vstd::prelude::*;
use crate::address::Address;

verus! {

/// Sent when a payment has been recorded and its amount taken into custody.
#[derive(Debug, PartialEq, Eq)]
pub struct PaymentProcessed {
    pub payment_id: String,
    pub event_id: String,
    pub buyer_address: Address,
    pub amount: i128,
    pub platform_fee: i128,
    pub organizer_amount: i128,
    pub timestamp: u64,
}

/// Sent when a payment has been confirmed and settled.
#[derive(Debug, PartialEq, Eq)]
pub struct PaymentConfirmed {
    pub payment_id: String,
    pub transaction_hash: String,
    pub confirmed_at: u64,
}

/// Sent when a payment has failed and its custody has been returned.
#[derive(Debug, PartialEq, Eq)]
pub struct PaymentFailed {
    pub payment_id: String,
    pub reason: String,
    pub timestamp: u64,
}

/// Sent when the payment ledger has been configured.
#[derive(Debug, PartialEq, Eq)]
pub struct InitializationEvent {
    pub usdc_token: Address,
    pub platform_wallet: Address,
    pub event_registry: Address,
}

/// A message on the ledger's outgoing notification channel.
#[derive(Debug, PartialEq, Eq)]
pub enum Notification {
    Initialized(InitializationEvent),
    Processed(PaymentProcessed),
    Confirmed(PaymentConfirmed),
    Failed(PaymentFailed),
}

/// A request to move `amount` of `token` from one holder to another, carried
/// out by the host together with the operation that asked for it.
#[derive(Debug, PartialEq, Eq)]
pub struct Transfer {
    pub token: Address,
    pub from: Address,
    pub to: Address,
    pub amount: i128,
}

} // verus!
