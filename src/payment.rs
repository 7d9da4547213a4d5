use vstd::prelude::*;
use crate::address::Address;
use crate::auth::{require_auth, signed_by};
use crate::error::{Error, EventRegistryError, TicketPaymentError};
use crate::events::{
    InitializationEvent, Notification, PaymentConfirmed, PaymentFailed, PaymentProcessed, Transfer,
};
use crate::ids::{lemma_taken_ids_bound, payment_id_string, payment_id_text};
use crate::registry::{EventRegistry, MAX_FEE_BPS};
use crate::table::{texts, IndexLog, Table};

verus! {

/// Settlement state of a payment. `Confirmed` and `Failed` are terminal.
#[derive(Clone, Copy, Debug, PartialEq, Eq, Structural)]
pub enum PaymentStatus {
    Pending,
    Confirmed,
    Failed,
}

/// A ticket payment.
#[derive(Debug, PartialEq, Eq)]
pub struct Payment {
    pub payment_id: String,
    pub event_id: String,
    pub buyer_address: Address,
    pub ticket_tier_id: String,
    pub amount: i128,
    pub platform_fee: i128,
    pub organizer_amount: i128,
    pub status: PaymentStatus,
    pub transaction_hash: String,
    pub created_at: u64,
    pub confirmed_at: Option<u64>,
}

impl Clone for Payment {
    fn clone(&self) -> (r: Self)
        ensures
            r == *self,
    {
        Payment {
            payment_id: self.payment_id.clone(),
            event_id: self.event_id.clone(),
            buyer_address: self.buyer_address.clone(),
            ticket_tier_id: self.ticket_tier_id.clone(),
            amount: self.amount,
            platform_fee: self.platform_fee,
            organizer_amount: self.organizer_amount,
            status: self.status,
            transaction_hash: self.transaction_hash.clone(),
            created_at: self.created_at,
            confirmed_at: self.confirmed_at,
        }
    }
}

/// A payment whose amount is positive and splits exactly into the platform's
/// fee and the organizer's share.
pub open spec fn payment_wf(p: Payment) -> bool {
    &&& p.amount > 0
    &&& 0 <= p.platform_fee <= p.amount
    &&& p.platform_fee + p.organizer_amount == p.amount
}

/// The payment ledger's singleton configuration.
#[derive(Debug, PartialEq, Eq)]
pub struct PaymentConfig {
    pub usdc_token: Address,
    /// Fallback platform fee, in basis points.
    pub platform_fee_percent: u32,
    pub platform_wallet: Address,
    pub event_registry: Address,
}

/// The platform's share of `amount` at `fee_bps` basis points, rounded down.
pub open spec fn fee_of(amount: int, fee_bps: int) -> int {
    amount * fee_bps / 10000
}

/// Whether `amount * fee_bps` leaves the range of `i128`.
pub open spec fn fee_overflows(amount: int, fee_bps: int) -> bool {
    amount * fee_bps > i128::MAX
}

/// Splits a positive amount into the platform fee and the organizer's share.
/// Refused with `Overflow` where `amount * fee_bps` does not fit in `i128`.
pub fn split_amount(amount: i128, fee_bps: u32) -> (r: Result<(i128, i128), Error>)
    requires
        amount > 0,
        fee_bps <= MAX_FEE_BPS,
    ensures
        fee_overflows(amount as int, fee_bps as int) ==> r == Err::<(i128, i128), _>(
            Error::Overflow,
        ),
        !fee_overflows(amount as int, fee_bps as int) ==> r is Ok,
        r is Ok ==> {
            &&& r->Ok_0.0 == fee_of(amount as int, fee_bps as int)
            &&& r->Ok_0.0 + r->Ok_0.1 == amount
            &&& 0 <= r->Ok_0.0 <= amount
        },
{
    match amount.checked_mul(fee_bps as i128) {
        None => Err(Error::Overflow),
        Some(product) => {
            let fee = product / 10000;
            assert(0 <= fee <= amount) by (nonlinear_arith)
                requires
                    product == amount * fee_bps,
                    fee == product / 10000,
                    amount > 0,
                    0 <= fee_bps <= 10000,
            ;
            Ok((fee, amount - fee))
        },
    }
}

/// Why `process_payment` refuses a payment of `amount` by `buyer` for
/// `event_id`, if it does.
pub open spec fn payment_refusal(
    ledger: &PaymentLedger,
    registry: &EventRegistry,
    signers: Seq<Address>,
    buyer: Seq<char>,
    event_id: Seq<char>,
    amount: i128,
) -> Option<Error> {
    if ledger.config() is None {
        Some(Error::NotInitialized)
    } else if !signed_by(signers, buyer) {
        Some(Error::Unauthorized)
    } else if amount <= 0 {
        Some(Error::InvalidAmount)
    } else if event_id.len() == 0 {
        Some(Error::InvalidEventId)
    } else {
        match registry.payment_info(event_id) {
            Err(e) => Some(Error::EventRegistryError(e)),
            Ok(info) => if fee_overflows(amount as int, info.platform_fee_percent as int) {
                Some(Error::Overflow)
            } else {
                None
            },
        }
    }
}

/// `p` is the pending payment that `process_payment` records under `id`.
pub open spec fn is_new_payment(
    p: Payment,
    id: Seq<char>,
    event_id: Seq<char>,
    buyer: Address,
    amount: i128,
    fee_bps: u32,
    now: u64,
) -> bool {
    &&& p.payment_id@ == id
    &&& p.event_id@ == event_id
    &&& p.buyer_address == buyer
    &&& p.ticket_tier_id@ == Seq::<char>::empty()
    &&& p.amount == amount
    &&& p.platform_fee == fee_of(amount as int, fee_bps as int)
    &&& p.organizer_amount == amount - fee_of(amount as int, fee_bps as int)
    &&& p.platform_fee + p.organizer_amount == amount
    &&& p.status == PaymentStatus::Pending
    &&& p.transaction_hash@ == Seq::<char>::empty()
    &&& p.created_at == now
    &&& p.confirmed_at == None::<u64>
}

/// Why `confirm_payment` or `fail_payment` refuses to settle `payment_id`, if
/// it does.
pub open spec fn settle_refusal(
    ledger: &PaymentLedger,
    signers: Seq<Address>,
    payment_id: Seq<char>,
) -> Option<Error> {
    if !ledger.payments().contains_key(payment_id) {
        Some(Error::PaymentNotFound)
    } else if ledger.payments()[payment_id].status != PaymentStatus::Pending {
        Some(Error::PaymentAlreadyConfirmed)
    } else if ledger.config() is None {
        Some(Error::NotInitialized)
    } else if !signed_by(signers, ledger.config()->0.platform_wallet@) {
        Some(Error::Unauthorized)
    } else {
        None
    }
}

/// `t` moves `amount` of `token` from the holder `from` to `to`.
pub open spec fn is_transfer(t: Transfer, token: Address, from: Seq<char>, to: Address, amount: i128) -> bool {
    &&& t.token == token
    &&& t.from@ == from
    &&& t.to == to
    &&& t.amount == amount
}

/// Why `confirm_payment` refuses to confirm `payment_id`, if it does.
pub open spec fn confirm_refusal(
    ledger: &PaymentLedger,
    registry: &EventRegistry,
    signers: Seq<Address>,
    payment_id: Seq<char>,
) -> Option<Error> {
    match settle_refusal(ledger, signers, payment_id) {
        Some(e) => Some(e),
        None => if !registry.events().contains_key(ledger.payments()[payment_id].event_id@) {
            Some(Error::EventRegistryError(EventRegistryError::EventNotFound))
        } else {
            None
        },
    }
}

/// Owns payment records, the event and buyer indices, the configuration,
/// and the outgoing transfer requests and notifications.
pub struct PaymentLedger {
    address: Address,
    config: Option<PaymentConfig>,
    payments: Table<Payment>,
    event_payments: IndexLog,
    buyer_payments: IndexLog,
    transfers: Vec<Transfer>,
    notifications: Vec<Notification>,
}

impl PaymentLedger {
    /// The ledger's own address, which holds funds in custody.
    pub closed spec fn self_address(&self) -> Seq<char> {
        self.address@
    }

    pub closed spec fn config(&self) -> Option<PaymentConfig> {
        self.config
    }

    /// Payment records by payment id.
    pub closed spec fn payments(&self) -> Map<Seq<char>, Payment> {
        self.payments@
    }

    /// Payment ids recorded for an event, oldest first.
    pub closed spec fn event_payments(&self, event_id: Seq<char>) -> Seq<Seq<char>> {
        self.event_payments.values(event_id)
    }

    /// Payment ids recorded for a buyer, oldest first.
    pub closed spec fn buyer_payments(&self, buyer: Seq<char>) -> Seq<Seq<char>> {
        self.buyer_payments.values(buyer)
    }

    /// Transfers requested and not yet handed to the host.
    pub closed spec fn transfer_log(&self) -> Seq<Transfer> {
        self.transfers@
    }

    /// Notifications emitted and not yet handed to the host.
    pub closed spec fn notification_log(&self) -> Seq<Notification> {
        self.notifications@
    }

    /// Every payment sits under its own id and splits its amount exactly.
    pub open spec fn wf(&self) -> bool {
        &&& (self.config() is Some ==> self.config()->0.platform_fee_percent <= MAX_FEE_BPS)
        &&& forall|k: Seq<char>|
            #[trigger] self.payments().contains_key(k) ==> {
                &&& self.payments()[k].payment_id@ == k
                &&& payment_wf(self.payments()[k])
            }
    }

    /// Everything but the payments, their indices and the outgoing queues is
    /// as in `other`.
    pub open spec fn same_setup(&self, other: &PaymentLedger) -> bool {
        &&& self.self_address() == other.self_address()
        &&& self.config() == other.config()
    }

    /// A ledger at `address`, not yet initialized and holding no payment.
    pub fn new(address: Address) -> (r: PaymentLedger)
        ensures
            r.wf(),
            r.self_address() == address@,
            r.config() is None,
            r.payments() == Map::<Seq<char>, Payment>::empty(),
            forall|k: Seq<char>| #[trigger] r.event_payments(k) == Seq::<Seq<char>>::empty(),
            forall|k: Seq<char>| #[trigger] r.buyer_payments(k) == Seq::<Seq<char>>::empty(),
            r.transfer_log() == Seq::<Transfer>::empty(),
            r.notification_log() == Seq::<Notification>::empty(),
    {
        PaymentLedger {
            address,
            config: None,
            payments: Table::new(),
            event_payments: IndexLog::new(),
            buyer_payments: IndexLog::new(),
            transfers: Vec::new(),
            notifications: Vec::new(),
        }
    }

    /// Records the configuration, once, and announces it.
    pub fn initialize(
        &mut self,
        usdc_token: Address,
        platform_fee_bps: u32,
        platform_wallet: Address,
        event_registry: Address,
    ) -> (r: Result<(), TicketPaymentError>)
        requires
            old(self).wf(),
        ensures
            final(self).wf(),
            old(self).config() is Some ==> r == Err::<(), _>(TicketPaymentError::AlreadyInitialized),
            old(self).config() is None && platform_wallet@ == old(self).self_address() ==> r == Err::<
                (),
                _,
            >(TicketPaymentError::InvalidAddress),
            old(self).config() is None && platform_wallet@ != old(self).self_address()
                && platform_fee_bps > MAX_FEE_BPS ==> r == Err::<(), _>(
                TicketPaymentError::InvalidFeePercent,
            ),
            r is Err ==> *final(self) == *old(self),
            r is Ok <==> (old(self).config() is None && platform_wallet@ != old(self).self_address()
                && platform_fee_bps <= MAX_FEE_BPS),
            r is Ok ==> {
                &&& final(self).config() == Some(
                    PaymentConfig {
                        usdc_token,
                        platform_fee_percent: platform_fee_bps,
                        platform_wallet,
                        event_registry,
                    },
                )
                &&& final(self).notification_log() == old(self).notification_log().push(
                    Notification::Initialized(
                        InitializationEvent { usdc_token, platform_wallet, event_registry },
                    ),
                )
                &&& final(self).self_address() == old(self).self_address()
                &&& final(self).payments() == old(self).payments()
                &&& final(self).transfer_log() == old(self).transfer_log()
                &&& forall|k: Seq<char>|
                    #[trigger] final(self).event_payments(k) == old(self).event_payments(k)
                &&& forall|k: Seq<char>|
                    #[trigger] final(self).buyer_payments(k) == old(self).buyer_payments(k)
            },
    {
        if self.config.is_some() {
            return Err(TicketPaymentError::AlreadyInitialized);
        }
        if platform_wallet.same_as(&self.address) {
            return Err(TicketPaymentError::InvalidAddress);
        }
        if platform_fee_bps > MAX_FEE_BPS {
            return Err(TicketPaymentError::InvalidFeePercent);
        }
        self.notifications.push(
            Notification::Initialized(
                InitializationEvent {
                    usdc_token: usdc_token.clone(),
                    platform_wallet: platform_wallet.clone(),
                    event_registry: event_registry.clone(),
                },
            ),
        );
        self.config = Some(
            PaymentConfig { usdc_token, platform_fee_percent: platform_fee_bps, platform_wallet, event_registry },
        );
        assert(self.payments() == old(self).payments());
        Ok(())
    }

    pub fn is_initialized(&self) -> (r: bool)
        ensures
            r == self.config() is Some,
    {
        self.config.is_some()
    }

    pub fn get_usdc_token(&self) -> (r: Result<Address, TicketPaymentError>)
        ensures
            r == match self.config() {
                Some(c) => Ok(c.usdc_token),
                None => Err(TicketPaymentError::NotInitialized),
            },
    {
        match &self.config {
            Some(c) => Ok(c.usdc_token.clone()),
            None => Err(TicketPaymentError::NotInitialized),
        }
    }

    pub fn get_platform_wallet(&self) -> (r: Result<Address, TicketPaymentError>)
        ensures
            r == match self.config() {
                Some(c) => Ok(c.platform_wallet),
                None => Err(TicketPaymentError::NotInitialized),
            },
    {
        match &self.config {
            Some(c) => Ok(c.platform_wallet.clone()),
            None => Err(TicketPaymentError::NotInitialized),
        }
    }

    pub fn get_event_registry(&self) -> (r: Result<Address, TicketPaymentError>)
        ensures
            r == match self.config() {
                Some(c) => Ok(c.event_registry),
                None => Err(TicketPaymentError::NotInitialized),
            },
    {
        match &self.config {
            Some(c) => Ok(c.event_registry.clone()),
            None => Err(TicketPaymentError::NotInitialized),
        }
    }

    /// The configured fallback fee.
    pub fn get_platform_fee(&self) -> (r: Result<u32, TicketPaymentError>)
        ensures
            r == match self.config() {
                Some(c) => Ok(c.platform_fee_percent),
                None => Err(TicketPaymentError::NotInitialized),
            },
    {
        match &self.config {
            Some(c) => Ok(c.platform_fee_percent),
            None => Err(TicketPaymentError::NotInitialized),
        }
    }

    /// Writes `payment` under its id, replacing any record there, and appends
    /// the id to its event's and its buyer's index. It checks nothing:
    /// privileged use only; `process_payment` is the checked path.
    pub fn store_payment(&mut self, payment: Payment)
        requires
            old(self).wf(),
            payment_wf(payment),
        ensures
            final(self).wf(),
            final(self).payments() == old(self).payments().insert(payment.payment_id@, payment),
            final(self).event_payments(payment.event_id@) == old(self).event_payments(
                payment.event_id@,
            ).push(payment.payment_id@),
            forall|k: Seq<char>|
                k != payment.event_id@ ==> #[trigger] final(self).event_payments(k)
                    == old(self).event_payments(k),
            final(self).buyer_payments(payment.buyer_address@) == old(self).buyer_payments(
                payment.buyer_address@,
            ).push(payment.payment_id@),
            forall|k: Seq<char>|
                k != payment.buyer_address@ ==> #[trigger] final(self).buyer_payments(k)
                    == old(self).buyer_payments(k),
            final(self).same_setup(old(self)),
            final(self).transfer_log() == old(self).transfer_log(),
            final(self).notification_log() == old(self).notification_log(),
    {
        let ghost p = payment;
        self.event_payments.append(payment.event_id.clone(), payment.payment_id.clone());
        self.buyer_payments.append(payment.buyer_address.key.clone(), payment.payment_id.clone());
        self.payments.put(payment.payment_id.clone(), payment);
        assert forall|k: Seq<char>| #[trigger] self.payments().contains_key(k) implies {
            &&& self.payments()[k].payment_id@ == k
            &&& payment_wf(self.payments()[k])
        } by {
            if k != p.payment_id@ {
                assert(old(self).payments().contains_key(k));
            }
        }
    }

    /// What `get_payment` answers.
    pub open spec fn payment_lookup(&self, payment_id: Seq<char>) -> Option<Payment> {
        if self.payments().contains_key(payment_id) {
            Some(self.payments()[payment_id])
        } else {
            None
        }
    }

    /// The payment under `payment_id`; `None` for an unknown id.
    pub fn get_payment(&self, payment_id: &String) -> (r: Option<Payment>)
        ensures
            r == self.payment_lookup(payment_id@),
    {
        match self.payments.get(payment_id) {
            Some(p) => Some(p.clone()),
            None => None,
        }
    }

    /// Sets a payment's status and confirmation time without any check of
    /// the transition: privileged use only.
    pub fn update_payment_status(
        &mut self,
        payment_id: &String,
        status: PaymentStatus,
        confirmed_at: Option<u64>,
    ) -> (r: Result<(), Error>)
        requires
            old(self).wf(),
        ensures
            final(self).wf(),
            r is Ok <==> old(self).payments().contains_key(payment_id@),
            r is Err ==> r == Err::<(), _>(Error::PaymentNotFound) && *final(self) == *old(self),
            r is Ok ==> {
                &&& final(self).payments() == old(self).payments().insert(
                    payment_id@,
                    Payment { status, confirmed_at, ..old(self).payments()[payment_id@] },
                )
                &&& final(self).payments()[payment_id@].status == status
                &&& final(self).payments()[payment_id@].confirmed_at == confirmed_at
                &&& forall|k: Seq<char>|
                    #[trigger] final(self).event_payments(k) == old(self).event_payments(k)
                &&& forall|k: Seq<char>|
                    #[trigger] final(self).buyer_payments(k) == old(self).buyer_payments(k)
                &&& final(self).same_setup(old(self))
                &&& final(self).transfer_log() == old(self).transfer_log()
                &&& final(self).notification_log() == old(self).notification_log()
            },
    {
        let mut p = match self.payments.get(payment_id) {
            None => {
                return Err(Error::PaymentNotFound);
            },
            Some(p) => p.clone(),
        };
        p.status = status;
        p.confirmed_at = confirmed_at;
        self.put_record(p);
        Ok(())
    }

    /// Replaces the record of an existing payment, keeping its indices.
    fn put_record(&mut self, p: Payment)
        requires
            old(self).wf(),
            payment_wf(p),
        ensures
            final(self).wf(),
            final(self).payments() == old(self).payments().insert(p.payment_id@, p),
            final(self).event_payments == old(self).event_payments,
            final(self).buyer_payments == old(self).buyer_payments,
            final(self).address == old(self).address,
            final(self).config == old(self).config,
            final(self).transfers == old(self).transfers,
            final(self).notifications == old(self).notifications,
    {
        let ghost q = p;
        self.payments.put(p.payment_id.clone(), p);
        assert forall|k: Seq<char>| #[trigger] self.payments().contains_key(k) implies {
            &&& self.payments()[k].payment_id@ == k
            &&& payment_wf(self.payments()[k])
        } by {
            if k != q.payment_id@ {
                assert(old(self).payments().contains_key(k));
            }
        }
    }

    /// Ids of the event's payments, oldest first; empty if there are none.
    pub fn get_event_payments(&self, event_id: &String) -> (r: Vec<String>)
        ensures
            texts(r@) == self.event_payments(event_id@),
    {
        self.event_payments.lookup(event_id)
    }

    /// Ids of the buyer's payments, oldest first; empty if there are none.
    pub fn get_buyer_payments(&self, buyer: &Address) -> (r: Vec<String>)
        ensures
            texts(r@) == self.buyer_payments(buyer@),
    {
        self.buyer_payments.lookup(&buyer.key)
    }

    /// A payment id that no stored payment has: the first free `PAY-<n>`.
    fn fresh_payment_id(&self) -> (r: String)
        ensures
            !self.payments().contains_key(r@),
            exists|n: nat| n >= 1 && r@ == payment_id_text(n),
    {
        let bound = self.payments.size_bound();
        let mut n: u128 = 1;
        loop
            invariant
                self.payments().dom().finite(),
                self.payments().dom().len() <= bound,
                1 <= n <= bound as u128 + 1,
                forall|m: nat| 1 <= m < n ==> self.payments().contains_key(#[trigger] payment_id_text(m)),
            decreases bound as u128 + 1 - n,
        {
            let id = payment_id_string(n);
            if !self.payments.contains(&id) {
                return id;
            }
            proof {
                assert forall|m: nat| 1 <= m <= n implies self.payments().dom().contains(
                    #[trigger] payment_id_text(m),
                ) by {
                    if m < n {
                        assert(self.payments().contains_key(payment_id_text(m)));
                    }
                }
                lemma_taken_ids_bound(self.payments().dom(), n as nat);
            }
            n = n + 1;
        }
    }

    /// Records a pending payment of `amount` by `buyer` for an active event,
    /// splits it by the event's fee, indexes it under the event and the
    /// buyer, asks for the amount to be taken into the ledger's custody, and
    /// announces it. The buyer must authorize the call. Returns the new
    /// payment's id.
    pub fn process_payment(
        &mut self,
        registry: &EventRegistry,
        signers: &Vec<Address>,
        buyer: Address,
        event_id: String,
        amount: i128,
        now: u64,
    ) -> (r: Result<String, Error>)
        requires
            old(self).wf(),
            registry.wf(),
        ensures
            final(self).wf(),
            match payment_refusal(old(self), registry, signers@, buyer@, event_id@, amount) {
                Some(e) => r == Err::<String, _>(e) && *final(self) == *old(self),
                None => r is Ok && {
                    let id = r->Ok_0;
                    let fee_bps = registry.payment_info(event_id@)->Ok_0.platform_fee_percent;
                    let p = final(self).payments()[id@];
                    &&& !old(self).payments().contains_key(id@)
                    &&& exists|n: nat| n >= 1 && id@ == payment_id_text(n)
                    &&& final(self).payments() == old(self).payments().insert(id@, p)
                    &&& is_new_payment(p, id@, event_id@, buyer, amount, fee_bps, now)
                    &&& final(self).event_payments(event_id@) == old(self).event_payments(
                        event_id@,
                    ).push(id@)
                    &&& forall|k: Seq<char>|
                        k != event_id@ ==> #[trigger] final(self).event_payments(k)
                            == old(self).event_payments(k)
                    &&& final(self).buyer_payments(buyer@) == old(self).buyer_payments(
                        buyer@,
                    ).push(id@)
                    &&& forall|k: Seq<char>|
                        k != buyer@ ==> #[trigger] final(self).buyer_payments(k)
                            == old(self).buyer_payments(k)
                    &&& final(self).same_setup(old(self))
                    &&& final(self).transfer_log().len() == old(self).transfer_log().len() + 1
                    &&& final(self).transfer_log().drop_last() == old(self).transfer_log()
                    &&& final(self).transfer_log().last().token == old(self).config()->0.usdc_token
                    &&& final(self).transfer_log().last().from == buyer
                    &&& final(self).transfer_log().last().to@ == old(self).self_address()
                    &&& final(self).transfer_log().last().amount == amount
                    &&& final(self).notification_log() == old(self).notification_log().push(
                        Notification::Processed(
                            PaymentProcessed {
                                payment_id: id,
                                event_id: p.event_id,
                                buyer_address: buyer,
                                amount,
                                platform_fee: p.platform_fee,
                                organizer_amount: p.organizer_amount,
                                timestamp: now,
                            },
                        ),
                    )
                },
            },
    {
        let token = match &self.config {
            Some(c) => c.usdc_token.clone(),
            None => {
                return Err(Error::NotInitialized);
            },
        };
        if !require_auth(signers, &buyer) {
            return Err(Error::Unauthorized);
        }
        if amount <= 0 {
            return Err(Error::InvalidAmount);
        }
        if event_id.as_str().is_empty() {
            return Err(Error::InvalidEventId);
        }
        let info = match registry.get_event_payment_info(&event_id) {
            Ok(info) => info,
            Err(e) => {
                return Err(Error::EventRegistryError(e));
            },
        };
        let (platform_fee, organizer_amount) = match split_amount(amount, info.platform_fee_percent) {
            Ok(split) => split,
            Err(e) => {
                return Err(e);
            },
        };
        let payment_id = self.fresh_payment_id();
        let payment = Payment {
            payment_id: payment_id.clone(),
            event_id: event_id.clone(),
            buyer_address: buyer.clone(),
            ticket_tier_id: String::new(),
            amount,
            platform_fee,
            organizer_amount,
            status: PaymentStatus::Pending,
            transaction_hash: String::new(),
            created_at: now,
            confirmed_at: None,
        };
        self.store_payment(payment);
        let ghost stored = *self;
        self.transfers.push(
            Transfer { token, from: buyer.clone(), to: self.address.clone(), amount },
        );
        self.notifications.push(
            Notification::Processed(
                PaymentProcessed {
                    payment_id: payment_id.clone(),
                    event_id,
                    buyer_address: buyer,
                    amount,
                    platform_fee,
                    organizer_amount,
                    timestamp: now,
                },
            ),
        );
        assert forall|k: Seq<char>| k != event_id@ implies #[trigger] self.event_payments(k)
            == old(self).event_payments(k) by {
            assert(self.event_payments(k) == stored.event_payments(k));
        }
        assert forall|k: Seq<char>| k != buyer@ implies #[trigger] self.buyer_payments(k)
            == old(self).buyer_payments(k) by {
            assert(self.buyer_payments(k) == stored.buyer_payments(k));
        }
        Ok(payment_id)
    }

    /// Confirms a pending payment: records the transaction hash and the time,
    /// and asks for the organizer's share to go to the event's payment
    /// address and the fee to the platform wallet. The platform wallet must
    /// authorize the call.
    pub fn confirm_payment(
        &mut self,
        registry: &EventRegistry,
        signers: &Vec<Address>,
        payment_id: &String,
        transaction_hash: String,
        now: u64,
    ) -> (r: Result<(), Error>)
        requires
            old(self).wf(),
            registry.wf(),
        ensures
            final(self).wf(),
            match confirm_refusal(old(self), registry, signers@, payment_id@) {
                Some(e) => r == Err::<(), _>(e) && *final(self) == *old(self),
                None => r is Ok && {
                    let p = old(self).payments()[payment_id@];
                    let c = old(self).config()->0;
                    let t = final(self).transfer_log();
                    let n = old(self).transfer_log().len();
                    &&& final(self).payments() == old(self).payments().insert(
                        payment_id@,
                        Payment {
                            status: PaymentStatus::Confirmed,
                            confirmed_at: Some(now),
                            transaction_hash,
                            ..p
                        },
                    )
                    &&& forall|k: Seq<char>|
                        #[trigger] final(self).event_payments(k) == old(self).event_payments(k)
                    &&& forall|k: Seq<char>|
                        #[trigger] final(self).buyer_payments(k) == old(self).buyer_payments(k)
                    &&& final(self).same_setup(old(self))
                    &&& t.len() == n + 2
                    &&& t.subrange(0, n as int) == old(self).transfer_log()
                    &&& is_transfer(
                        t[n as int],
                        c.usdc_token,
                        old(self).self_address(),
                        registry.events()[p.event_id@].payment_address,
                        p.organizer_amount,
                    )
                    &&& is_transfer(
                        t[n + 1 as int],
                        c.usdc_token,
                        old(self).self_address(),
                        c.platform_wallet,
                        p.platform_fee,
                    )
                    &&& final(self).notification_log() == old(self).notification_log().push(
                        Notification::Confirmed(
                            PaymentConfirmed {
                                payment_id: *payment_id,
                                transaction_hash,
                                confirmed_at: now,
                            },
                        ),
                    )
                },
            },
    {
        let mut p = match self.payments.get(payment_id) {
            None => {
                return Err(Error::PaymentNotFound);
            },
            Some(p) => p.clone(),
        };
        if p.status != PaymentStatus::Pending {
            return Err(Error::PaymentAlreadyConfirmed);
        }
        let (token, wallet) = match &self.config {
            Some(c) => (c.usdc_token.clone(), c.platform_wallet.clone()),
            None => {
                return Err(Error::NotInitialized);
            },
        };
        if !require_auth(signers, &wallet) {
            return Err(Error::Unauthorized);
        }
        let destination = match registry.get_event(&p.event_id) {
            Some(e) => e.payment_address,
            None => {
                return Err(Error::EventRegistryError(EventRegistryError::EventNotFound));
            },
        };
        let organizer_amount = p.organizer_amount;
        let platform_fee = p.platform_fee;
        p.status = PaymentStatus::Confirmed;
        p.confirmed_at = Some(now);
        p.transaction_hash = transaction_hash.clone();
        self.put_record(p);
        let ghost stored = *self;
        self.transfers.push(
            Transfer {
                token: token.clone(),
                from: self.address.clone(),
                to: destination,
                amount: organizer_amount,
            },
        );
        self.transfers.push(
            Transfer { token, from: self.address.clone(), to: wallet, amount: platform_fee },
        );
        self.notifications.push(
            Notification::Confirmed(
                PaymentConfirmed {
                    payment_id: payment_id.clone(),
                    transaction_hash,
                    confirmed_at: now,
                },
            ),
        );
        assert(self.transfer_log().subrange(0, old(self).transfer_log().len() as int)
            =~= old(self).transfer_log());
        assert forall|k: Seq<char>| #[trigger] self.event_payments(k) == old(self).event_payments(k) by {
            assert(self.event_payments(k) == stored.event_payments(k));
        }
        assert forall|k: Seq<char>| #[trigger] self.buyer_payments(k) == old(self).buyer_payments(k) by {
            assert(self.buyer_payments(k) == stored.buyer_payments(k));
        }
        Ok(())
    }

    /// Marks a pending payment failed and asks for its amount to be returned
    /// from custody to the buyer; the record is kept. The platform wallet
    /// must authorize the call.
    pub fn fail_payment(
        &mut self,
        signers: &Vec<Address>,
        payment_id: &String,
        reason: String,
        now: u64,
    ) -> (r: Result<(), Error>)
        requires
            old(self).wf(),
        ensures
            final(self).wf(),
            match settle_refusal(old(self), signers@, payment_id@) {
                Some(e) => r == Err::<(), _>(e) && *final(self) == *old(self),
                None => r is Ok && {
                    let p = old(self).payments()[payment_id@];
                    let c = old(self).config()->0;
                    &&& final(self).payments() == old(self).payments().insert(
                        payment_id@,
                        Payment { status: PaymentStatus::Failed, ..p },
                    )
                    &&& forall|k: Seq<char>|
                        #[trigger] final(self).event_payments(k) == old(self).event_payments(k)
                    &&& forall|k: Seq<char>|
                        #[trigger] final(self).buyer_payments(k) == old(self).buyer_payments(k)
                    &&& final(self).same_setup(old(self))
                    &&& final(self).transfer_log().len() == old(self).transfer_log().len() + 1
                    &&& final(self).transfer_log().drop_last() == old(self).transfer_log()
                    &&& is_transfer(
                        final(self).transfer_log().last(),
                        c.usdc_token,
                        old(self).self_address(),
                        p.buyer_address,
                        p.amount,
                    )
                    &&& final(self).notification_log() == old(self).notification_log().push(
                        Notification::Failed(
                            PaymentFailed { payment_id: *payment_id, reason, timestamp: now },
                        ),
                    )
                },
            },
    {
        let mut p = match self.payments.get(payment_id) {
            None => {
                return Err(Error::PaymentNotFound);
            },
            Some(p) => p.clone(),
        };
        if p.status != PaymentStatus::Pending {
            return Err(Error::PaymentAlreadyConfirmed);
        }
        let (token, wallet) = match &self.config {
            Some(c) => (c.usdc_token.clone(), c.platform_wallet.clone()),
            None => {
                return Err(Error::NotInitialized);
            },
        };
        if !require_auth(signers, &wallet) {
            return Err(Error::Unauthorized);
        }
        let buyer = p.buyer_address.clone();
        let amount = p.amount;
        p.status = PaymentStatus::Failed;
        self.put_record(p);
        let ghost stored = *self;
        self.transfers.push(Transfer { token, from: self.address.clone(), to: buyer, amount });
        self.notifications.push(
            Notification::Failed(
                PaymentFailed { payment_id: payment_id.clone(), reason, timestamp: now },
            ),
        );
        assert forall|k: Seq<char>| #[trigger] self.event_payments(k) == old(self).event_payments(k) by {
            assert(self.event_payments(k) == stored.event_payments(k));
        }
        assert forall|k: Seq<char>| #[trigger] self.buyer_payments(k) == old(self).buyer_payments(k) by {
            assert(self.buyer_payments(k) == stored.buyer_payments(k));
        }
        Ok(())
    }

    /// Hands the requested transfers to the host, oldest first, and empties
    /// the queue.
    pub fn take_transfers(&mut self) -> (r: Vec<Transfer>)
        requires
            old(self).wf(),
        ensures
            final(self).wf(),
            r@ == old(self).transfer_log(),
            final(self).transfer_log() == Seq::<Transfer>::empty(),
            final(self).payments() == old(self).payments(),
            final(self).same_setup(old(self)),
            final(self).notification_log() == old(self).notification_log(),
            forall|k: Seq<char>|
                #[trigger] final(self).event_payments(k) == old(self).event_payments(k),
            forall|k: Seq<char>|
                #[trigger] final(self).buyer_payments(k) == old(self).buyer_payments(k),
    {
        let mut out: Vec<Transfer> = Vec::new();
        std::mem::swap(&mut out, &mut self.transfers);
        out
    }

    /// Hands the emitted notifications to the host, oldest first, and
    /// empties the queue.
    pub fn take_notifications(&mut self) -> (r: Vec<Notification>)
        requires
            old(self).wf(),
        ensures
            final(self).wf(),
            r@ == old(self).notification_log(),
            final(self).notification_log() == Seq::<Notification>::empty(),
            final(self).payments() == old(self).payments(),
            final(self).same_setup(old(self)),
            final(self).transfer_log() == old(self).transfer_log(),
            forall|k: Seq<char>|
                #[trigger] final(self).event_payments(k) == old(self).event_payments(k),
            forall|k: Seq<char>|
                #[trigger] final(self).buyer_payments(k) == old(self).buyer_payments(k),
    {
        let mut out: Vec<Notification> = Vec::new();
        std::mem::swap(&mut out, &mut self.notifications);
        out
    }
}

} // verus!
