use vstd::prelude::*;
use crate::address::{is_strkey, Address};
use crate::auth::{require_auth, signed_by};
use crate::error::EventRegistryError;
use crate::table::{texts, IndexLog, Table};

verus! {

/// Largest fee, in basis points (100%).
pub const MAX_FEE_BPS: u32 = 10000;

/// Fee that `initialize` sets when it is handed a zero fee.
pub const FALLBACK_FEE_BPS: u32 = 500;

/// A registered event.
#[derive(Debug, PartialEq, Eq)]
pub struct EventInfo {
    pub event_id: String,
    pub organizer_address: Address,
    pub payment_address: Address,
    /// Platform fee, in basis points.
    pub platform_fee_percent: u32,
    pub is_active: bool,
    pub created_at: u64,
}

impl Clone for EventInfo {
    fn clone(&self) -> (r: Self)
        ensures
            r == *self,
    {
        EventInfo {
            event_id: self.event_id.clone(),
            organizer_address: self.organizer_address.clone(),
            payment_address: self.payment_address.clone(),
            platform_fee_percent: self.platform_fee_percent,
            is_active: self.is_active,
            created_at: self.created_at,
        }
    }
}

/// What the payment ledger needs to know of an event.
#[derive(Debug, PartialEq, Eq)]
pub struct EventPaymentInfo {
    pub payment_address: Address,
    pub platform_fee_percent: u32,
}

/// The registry's singleton configuration.
#[derive(Debug, PartialEq, Eq)]
pub struct RegistryConfig {
    pub admin_address: Address,
    pub platform_wallet_address: Address,
    pub default_platform_fee_percent: u32,
}

/// The fee that `initialize` records for a requested fee.
pub open spec fn effective_default_fee(fee_bps: u32) -> u32 {
    if fee_bps == 0 {
        FALLBACK_FEE_BPS
    } else {
        fee_bps
    }
}

/// What `initialize` does, from the registry before the call to the one
/// after.
pub open spec fn initialize_post(
    pre: EventRegistry,
    post: EventRegistry,
    admin: Address,
    platform_wallet: Address,
    default_fee_bps: u32,
    r: Result<(), EventRegistryError>,
) -> bool {
    &&& pre.config() is Some ==> r == Err::<(), _>(EventRegistryError::AlreadyInitialized)
    &&& pre.config() is None && admin@ == pre.self_address() ==> r == Err::<(), _>(
        EventRegistryError::InvalidAddress,
    )
    &&& pre.config() is None && admin@ != pre.self_address() && default_fee_bps > MAX_FEE_BPS
        ==> r == Err::<(), _>(EventRegistryError::InvalidFeePercent)
    &&& r is Err ==> post == pre
    &&& r is Ok <==> (pre.config() is None && admin@ != pre.self_address() && default_fee_bps
        <= MAX_FEE_BPS)
    &&& r is Ok ==> {
        &&& post.config() == Some(
            RegistryConfig {
                admin_address: admin,
                platform_wallet_address: platform_wallet,
                default_platform_fee_percent: effective_default_fee(default_fee_bps),
            },
        )
        &&& post.self_address() == pre.self_address()
        &&& post.events() == pre.events()
        &&& forall|o: Seq<char>| #[trigger] post.organizer_events(o) == pre.organizer_events(o)
    }
}

/// What `set_platform_fee` does, from the registry before the call to the
/// one after.
pub open spec fn set_platform_fee_post(
    pre: EventRegistry,
    post: EventRegistry,
    signers: Seq<Address>,
    new_fee_bps: u32,
    r: Result<(), EventRegistryError>,
) -> bool {
    &&& pre.config() is None ==> r == Err::<(), _>(EventRegistryError::NotInitialized)
    &&& pre.config() is Some && !signed_by(signers, pre.config()->0.admin_address@) ==> r == Err::<
        (),
        _,
    >(EventRegistryError::Unauthorized)
    &&& pre.config() is Some && signed_by(signers, pre.config()->0.admin_address@) && new_fee_bps
        > MAX_FEE_BPS ==> r == Err::<(), _>(EventRegistryError::InvalidFeePercent)
    &&& r is Err ==> post == pre
    &&& r is Ok <==> (pre.config() is Some && signed_by(signers, pre.config()->0.admin_address@)
        && new_fee_bps <= MAX_FEE_BPS)
    &&& r is Ok ==> {
        &&& post.config() == Some(
            RegistryConfig { default_platform_fee_percent: new_fee_bps, ..pre.config()->0 },
        )
        &&& post.self_address() == pre.self_address()
        &&& post.events() == pre.events()
        &&& forall|o: Seq<char>| #[trigger] post.organizer_events(o) == pre.organizer_events(o)
    }
}

/// What `register_event` does, from the registry before the call to the
/// one after.
pub open spec fn register_event_post(
    pre: EventRegistry,
    post: EventRegistry,
    signers: Seq<Address>,
    event_id: String,
    organizer: Address,
    payment_address: Address,
    now: u64,
    r: Result<(), EventRegistryError>,
) -> bool {
    match pre.register_refusal(signers, event_id@, organizer@, payment_address@) {
        Some(e) => r == Err::<(), _>(e) && post == pre,
            None => {
                &&& r is Ok
                &&& post.events() == pre.events().insert(
                    event_id@,
                    EventInfo {
                        event_id,
                        organizer_address: organizer,
                        payment_address,
                        platform_fee_percent: pre.config()->0.default_platform_fee_percent,
                        is_active: true,
                        created_at: now,
                    },
                )
                &&& post.organizer_events(organizer@) == pre.organizer_events(
                    organizer@,
                ).push(event_id@)
                &&& forall|o: Seq<char>|
                    o != organizer@ ==> #[trigger] post.organizer_events(o)
                        == pre.organizer_events(o)
                &&& post.config() == pre.config()
                &&& post.self_address() == pre.self_address()
            },
    }
}

/// Owns event records, the organizer index and the registry configuration.
pub struct EventRegistry {
    address: Address,
    config: Option<RegistryConfig>,
    events: Table<EventInfo>,
    organizer_events: IndexLog,
}

impl EventRegistry {
    /// The registry's own address.
    pub closed spec fn self_address(&self) -> Seq<char> {
        self.address@
    }

    pub closed spec fn config(&self) -> Option<RegistryConfig> {
        self.config
    }

    /// Event records by event id.
    pub closed spec fn events(&self) -> Map<Seq<char>, EventInfo> {
        self.events@
    }

    /// Event ids stored for an organizer, in the order they were stored.
    pub closed spec fn organizer_events(&self, organizer: Seq<char>) -> Seq<Seq<char>> {
        self.organizer_events.values(organizer)
    }

    /// Every record sits under its own id, and every fee is within range.
    pub open spec fn wf(&self) -> bool {
        &&& (self.config() is Some ==> self.config()->0.default_platform_fee_percent
            <= MAX_FEE_BPS)
        &&& forall|k: Seq<char>|
            #[trigger] self.events().contains_key(k) ==> {
                &&& self.events()[k].event_id@ == k
                &&& self.events()[k].platform_fee_percent <= MAX_FEE_BPS
            }
    }

    /// What `get_event_payment_info` answers for `event_id`.
    pub open spec fn payment_info(&self, event_id: Seq<char>) -> Result<
        EventPaymentInfo,
        EventRegistryError,
    > {
        if !self.events().contains_key(event_id) {
            Err(EventRegistryError::EventNotFound)
        } else if !self.events()[event_id].is_active {
            Err(EventRegistryError::EventInactive)
        } else {
            Ok(
                EventPaymentInfo {
                    payment_address: self.events()[event_id].payment_address,
                    platform_fee_percent: self.events()[event_id].platform_fee_percent,
                },
            )
        }
    }

    /// A registry at `address`, not yet initialized and holding no event.
    pub fn new(address: Address) -> (r: EventRegistry)
        ensures
            r.wf(),
            r.self_address() == address@,
            r.config() is None,
            r.events() == Map::<Seq<char>, EventInfo>::empty(),
            forall|o: Seq<char>| #[trigger] r.organizer_events(o) == Seq::<Seq<char>>::empty(),
    {
        EventRegistry {
            address,
            config: None,
            events: Table::new(),
            organizer_events: IndexLog::new(),
        }
    }

    /// Records the configuration, once.
    pub fn initialize(&mut self, admin: Address, platform_wallet: Address, default_fee_bps: u32) -> (r:
        Result<(), EventRegistryError>)
        requires
            old(self).wf(),
        ensures
            final(self).wf(),
            initialize_post(
                *old(self),
                *final(self),
                admin,
                platform_wallet,
                default_fee_bps,
                r,
            ),
    {
        if self.config.is_some() {
            return Err(EventRegistryError::AlreadyInitialized);
        }
        if admin.same_as(&self.address) {
            return Err(EventRegistryError::InvalidAddress);
        }
        if default_fee_bps > MAX_FEE_BPS {
            return Err(EventRegistryError::InvalidFeePercent);
        }
        let fee = if default_fee_bps == 0 {
            FALLBACK_FEE_BPS
        } else {
            default_fee_bps
        };
        self.config = Some(
            RegistryConfig {
                admin_address: admin,
                platform_wallet_address: platform_wallet,
                default_platform_fee_percent: fee,
            },
        );
        assert(self.events() == old(self).events());
        Ok(())
    }

    /// Sets the default fee that newly registered events take; admin only.
    pub fn set_platform_fee(&mut self, signers: &Vec<Address>, new_fee_bps: u32) -> (r: Result<
        (),
        EventRegistryError,
    >)
        requires
            old(self).wf(),
        ensures
            final(self).wf(),
            set_platform_fee_post(*old(self), *final(self), signers@, new_fee_bps, r),
    {
        let r = match &mut self.config {
            None => Err(EventRegistryError::NotInitialized),
            Some(c) => {
                if !require_auth(signers, &c.admin_address) {
                    Err(EventRegistryError::Unauthorized)
                } else if new_fee_bps > MAX_FEE_BPS {
                    Err(EventRegistryError::InvalidFeePercent)
                } else {
                    c.default_platform_fee_percent = new_fee_bps;
                    Ok(())
                }
            },
        };
        assert(self.events() == old(self).events());
        r
    }

    /// What `get_platform_fee` answers.
    pub open spec fn platform_fee_value(&self) -> Result<u32, EventRegistryError> {
        match self.config() {
            Some(c) => Ok(c.default_platform_fee_percent),
            None => Err(EventRegistryError::NotInitialized),
        }
    }

    /// The default fee for new events.
    pub fn get_platform_fee(&self) -> (r: Result<u32, EventRegistryError>)
        ensures
            r == self.platform_fee_value(),
    {
        match &self.config {
            Some(c) => Ok(c.default_platform_fee_percent),
            None => Err(EventRegistryError::NotInitialized),
        }
    }

    pub fn get_admin(&self) -> (r: Result<Address, EventRegistryError>)
        ensures
            r == match self.config() {
                Some(c) => Ok(c.admin_address),
                None => Err(EventRegistryError::NotInitialized),
            },
    {
        match &self.config {
            Some(c) => Ok(c.admin_address.clone()),
            None => Err(EventRegistryError::NotInitialized),
        }
    }

    pub fn get_platform_wallet(&self) -> (r: Result<Address, EventRegistryError>)
        ensures
            r == match self.config() {
                Some(c) => Ok(c.platform_wallet_address),
                None => Err(EventRegistryError::NotInitialized),
            },
    {
        match &self.config {
            Some(c) => Ok(c.platform_wallet_address.clone()),
            None => Err(EventRegistryError::NotInitialized),
        }
    }

    /// Writes `event` under its id, replacing any record there, and appends the
    /// id to its organizer's index. It checks nothing: privileged use only;
    /// `register_event` is the checked path.
    pub fn store_event(&mut self, event: EventInfo)
        requires
            old(self).wf(),
            event.platform_fee_percent <= MAX_FEE_BPS,
        ensures
            final(self).wf(),
            final(self).events() == old(self).events().insert(event.event_id@, event),
            final(self).organizer_events(event.organizer_address@) == old(self).organizer_events(
                event.organizer_address@,
            ).push(event.event_id@),
            forall|o: Seq<char>|
                o != event.organizer_address@ ==> #[trigger] final(self).organizer_events(o)
                    == old(self).organizer_events(o),
            final(self).config() == old(self).config(),
            final(self).self_address() == old(self).self_address(),
    {
        let ghost e = event;
        self.organizer_events.append(event.organizer_address.key.clone(), event.event_id.clone());
        self.events.put(event.event_id.clone(), event);
        assert forall|k: Seq<char>| #[trigger] self.events().contains_key(k) implies {
            &&& self.events()[k].event_id@ == k
            &&& self.events()[k].platform_fee_percent <= MAX_FEE_BPS
        } by {
            if k != e.event_id@ {
                assert(old(self).events().contains_key(k));
            }
        }
    }

    pub fn event_exists(&self, event_id: &String) -> (r: bool)
        ensures
            r == self.events().contains_key(event_id@),
    {
        self.events.contains(event_id)
    }

    pub fn get_event(&self, event_id: &String) -> (r: Option<EventInfo>)
        ensures
            r == (if self.events().contains_key(event_id@) {
                Some(self.events()[event_id@])
            } else {
                None
            }),
    {
        match self.events.get(event_id) {
            Some(e) => Some(e.clone()),
            None => None,
        }
    }

    /// Ids of the organizer's events, in the order they were stored; empty if
    /// there are none.
    pub fn get_organizer_events(&self, organizer: &Address) -> (r: Vec<String>)
        ensures
            texts(r@) == self.organizer_events(organizer@),
    {
        self.organizer_events.lookup(&organizer.key)
    }

    /// Why `register_event` refuses these arguments, if it does.
    pub open spec fn register_refusal(
        &self,
        signers: Seq<Address>,
        event_id: Seq<char>,
        organizer: Seq<char>,
        payment_address: Seq<char>,
    ) -> Option<EventRegistryError> {
        if !signed_by(signers, organizer) {
            Some(EventRegistryError::Unauthorized)
        } else if self.events().contains_key(event_id) {
            Some(EventRegistryError::EventAlreadyExists)
        } else if !is_strkey(payment_address) {
            Some(EventRegistryError::InvalidAddress)
        } else if self.config() is None {
            Some(EventRegistryError::NotInitialized)
        } else {
            None
        }
    }

    /// Registers a new event for `organizer`, who must authorize the call. The
    /// event is active, created at `now`, and takes the current default fee.
    pub fn register_event(
        &mut self,
        signers: &Vec<Address>,
        event_id: String,
        organizer: Address,
        payment_address: Address,
        now: u64,
    ) -> (r: Result<(), EventRegistryError>)
        requires
            old(self).wf(),
        ensures
            final(self).wf(),
            register_event_post(
                *old(self),
                *final(self),
                signers@,
                event_id,
                organizer,
                payment_address,
                now,
                r,
            ),
    {
        if !require_auth(signers, &organizer) {
            return Err(EventRegistryError::Unauthorized);
        }
        if self.events.contains(&event_id) {
            return Err(EventRegistryError::EventAlreadyExists);
        }
        if !payment_address.is_well_formed() {
            return Err(EventRegistryError::InvalidAddress);
        }
        let fee = match &self.config {
            Some(c) => c.default_platform_fee_percent,
            None => {
                return Err(EventRegistryError::NotInitialized);
            },
        };
        let event = EventInfo {
            event_id,
            organizer_address: organizer,
            payment_address,
            platform_fee_percent: fee,
            is_active: true,
            created_at: now,
        };
        self.store_event(event);
        Ok(())
    }

    /// Where payments for the event go and the fee they bear; refused for an
    /// unknown or inactive event.
    pub fn get_event_payment_info(&self, event_id: &String) -> (r: Result<
        EventPaymentInfo,
        EventRegistryError,
    >)
        ensures
            r == self.payment_info(event_id@),
    {
        match self.events.get(event_id) {
            None => Err(EventRegistryError::EventNotFound),
            Some(e) => {
                if !e.is_active {
                    Err(EventRegistryError::EventInactive)
                } else {
                    Ok(
                        EventPaymentInfo {
                            payment_address: e.payment_address.clone(),
                            platform_fee_percent: e.platform_fee_percent,
                        },
                    )
                }
            },
        }
    }

    /// Whether the registry admin or the event's organizer authorized the call.
    pub open spec fn may_manage(&self, signers: Seq<Address>, event: EventInfo) -> bool {
        signed_by(signers, event.organizer_address@) || (self.config() is Some && signed_by(
            signers,
            self.config()->0.admin_address@,
        ))
    }

    /// Activates or deactivates an event; the admin or the event's organizer
    /// must authorize the call. Reactivation is allowed.
    pub fn update_event_status(&mut self, signers: &Vec<Address>, event_id: &String, is_active: bool) -> (r:
        Result<(), EventRegistryError>)
        requires
            old(self).wf(),
        ensures
            final(self).wf(),
            !old(self).events().contains_key(event_id@) ==> r == Err::<(), _>(
                EventRegistryError::EventNotFound,
            ),
            old(self).events().contains_key(event_id@) && !old(self).may_manage(
                signers@,
                old(self).events()[event_id@],
            ) ==> r == Err::<(), _>(EventRegistryError::Unauthorized),
            r is Err ==> *final(self) == *old(self),
            r is Ok <==> (old(self).events().contains_key(event_id@) && old(self).may_manage(
                signers@,
                old(self).events()[event_id@],
            )),
            r is Ok ==> {
                &&& final(self).events() == old(self).events().insert(
                    event_id@,
                    EventInfo { is_active, ..old(self).events()[event_id@] },
                )
                &&& forall|o: Seq<char>|
                    #[trigger] final(self).organizer_events(o) == old(self).organizer_events(o)
                &&& final(self).config() == old(self).config()
                &&& final(self).self_address() == old(self).self_address()
            },
    {
        let mut event = match self.events.get(event_id) {
            None => {
                return Err(EventRegistryError::EventNotFound);
            },
            Some(e) => e.clone(),
        };
        let mut allowed = require_auth(signers, &event.organizer_address);
        if !allowed {
            allowed = match &self.config {
                Some(c) => require_auth(signers, &c.admin_address),
                None => false,
            };
        }
        if !allowed {
            return Err(EventRegistryError::Unauthorized);
        }
        event.is_active = is_active;
        let ghost e = event;
        self.events.put(event.event_id.clone(), event);
        assert forall|k: Seq<char>| #[trigger] self.events().contains_key(k) implies {
            &&& self.events()[k].event_id@ == k
            &&& self.events()[k].platform_fee_percent <= MAX_FEE_BPS
        } by {
            if k != e.event_id@ {
                assert(old(self).events().contains_key(k));
            }
        }
        Ok(())
    }
}

} // verus!
