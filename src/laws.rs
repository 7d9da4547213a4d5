use vstd::prelude::*;
use crate::address::Address;
use crate::auth::signed_by;
use crate::error::{Error, EventRegistryError};
use crate::payment::{confirm_refusal, payment_refusal, settle_refusal, PaymentLedger, PaymentStatus};
use crate::registry::{
    initialize_post, register_event_post, set_platform_fee_post, EventRegistry, MAX_FEE_BPS,
};

verus! {

/// Once the admin has set any fee within range, `get_platform_fee` answers
/// exactly that fee.
pub proof fn law_set_then_get_fee(
    pre: EventRegistry,
    post: EventRegistry,
    signers: Seq<Address>,
    fee_bps: u32,
    r: Result<(), EventRegistryError>,
)
    requires
        pre.wf(),
        pre.config() is Some,
        signed_by(signers, pre.config()->0.admin_address@),
        fee_bps <= MAX_FEE_BPS,
        set_platform_fee_post(pre, post, signers, fee_bps, r),
    ensures
        r is Ok,
        post.platform_fee_value() == Ok::<u32, EventRegistryError>(fee_bps),
{
}

/// After a successful `initialize`, a second call fails with
/// `AlreadyInitialized` and changes nothing, the configuration included.
pub proof fn law_initialize_once(
    r0: EventRegistry,
    r1: EventRegistry,
    r2: EventRegistry,
    admin1: Address,
    wallet1: Address,
    fee1: u32,
    res1: Result<(), EventRegistryError>,
    admin2: Address,
    wallet2: Address,
    fee2: u32,
    res2: Result<(), EventRegistryError>,
)
    requires
        r0.wf(),
        initialize_post(r0, r1, admin1, wallet1, fee1, res1),
        res1 is Ok,
        initialize_post(r1, r2, admin2, wallet2, fee2, res2),
    ensures
        res2 == Err::<(), _>(EventRegistryError::AlreadyInitialized),
        r2 == r1,
        r2.config() == r1.config(),
{
}

/// An event id registers once: registering it again, whoever the organizer,
/// fails with `EventAlreadyExists` and leaves the first record as it was.
pub proof fn law_register_exactly_once(
    r0: EventRegistry,
    r1: EventRegistry,
    r2: EventRegistry,
    signers1: Seq<Address>,
    event_id: String,
    organizer1: Address,
    payment1: Address,
    now1: u64,
    res1: Result<(), EventRegistryError>,
    signers2: Seq<Address>,
    event_id2: String,
    organizer2: Address,
    payment2: Address,
    now2: u64,
    res2: Result<(), EventRegistryError>,
)
    requires
        r0.wf(),
        register_event_post(r0, r1, signers1, event_id, organizer1, payment1, now1, res1),
        res1 is Ok,
        event_id2@ == event_id@,
        signed_by(signers2, organizer2@),
        register_event_post(r1, r2, signers2, event_id2, organizer2, payment2, now2, res2),
    ensures
        res2 == Err::<(), _>(EventRegistryError::EventAlreadyExists),
        r2 == r1,
        r2.events()[event_id@] == r1.events()[event_id@],
{
}

/// Two events registered one after the other for the same organizer appear
/// in the organizer's index in that order.
pub proof fn law_organizer_events_in_order(
    r0: EventRegistry,
    r1: EventRegistry,
    r2: EventRegistry,
    signers1: Seq<Address>,
    event1: String,
    organizer: Address,
    payment1: Address,
    now1: u64,
    res1: Result<(), EventRegistryError>,
    signers2: Seq<Address>,
    event2: String,
    organizer2: Address,
    payment2: Address,
    now2: u64,
    res2: Result<(), EventRegistryError>,
)
    requires
        r0.wf(),
        register_event_post(r0, r1, signers1, event1, organizer, payment1, now1, res1),
        res1 is Ok,
        organizer2@ == organizer@,
        register_event_post(r1, r2, signers2, event2, organizer2, payment2, now2, res2),
        res2 is Ok,
    ensures
        r2.organizer_events(organizer@) == r0.organizer_events(organizer@).push(event1@).push(
            event2@,
        ),
        r0.organizer_events(organizer@) == Seq::<Seq<char>>::empty() ==> r2.organizer_events(
            organizer@,
        ) == seq![event1@, event2@],
{
    assert(r0.organizer_events(organizer@) == Seq::<Seq<char>>::empty() ==> r0.organizer_events(
        organizer@,
    ).push(event1@).push(event2@) =~= seq![event1@, event2@]);
}

/// The arguments and result of one `register_event` call: signers, event
/// id, organizer, payment address, time and result.
pub type Registration = (Seq<Address>, String, Address, Address, u64, Result<(), EventRegistryError>);

/// Any number of successful registrations for the same organizer append
/// their event ids to the organizer's index in the order of the calls.
pub proof fn law_organizer_events_keep_order(
    states: Seq<EventRegistry>,
    calls: Seq<Registration>,
    organizer: Seq<char>,
)
    requires
        states.len() == calls.len() + 1,
        forall|i: int|
            0 <= i < calls.len() ==> {
                &&& (#[trigger] calls[i]).5 is Ok
                &&& calls[i].2@ == organizer
                &&& register_event_post(
                    states[i],
                    states[i + 1],
                    calls[i].0,
                    calls[i].1,
                    calls[i].2,
                    calls[i].3,
                    calls[i].4,
                    calls[i].5,
                )
            },
    ensures
        states.last().organizer_events(organizer) == states[0].organizer_events(organizer)
            + calls.map_values(|c: Registration| c.1@),
    decreases calls.len(),
{
    let ids = calls.map_values(|c: Registration| c.1@);
    if calls.len() == 0 {
        assert(ids =~= Seq::<Seq<char>>::empty());
        assert(states[0].organizer_events(organizer) + ids =~= states[0].organizer_events(organizer));
    } else {
        let n = calls.len() - 1;
        let fewer = calls.drop_last();
        let earlier = states.drop_last();
        assert forall|i: int| 0 <= i < fewer.len() implies {
            &&& (#[trigger] fewer[i]).5 is Ok
            &&& fewer[i].2@ == organizer
            &&& register_event_post(
                earlier[i],
                earlier[i + 1],
                fewer[i].0,
                fewer[i].1,
                fewer[i].2,
                fewer[i].3,
                fewer[i].4,
                fewer[i].5,
            )
        } by {
            assert(fewer[i] == calls[i]);
        }
        law_organizer_events_keep_order(earlier, fewer, organizer);
        let c = calls[n];
        assert(c.5 is Ok && c.2@ == organizer);
        assert(register_event_post(states[n], states[n + 1], c.0, c.1, c.2, c.3, c.4, c.5));
        assert(ids =~= fewer.map_values(|c: Registration| c.1@).push(c.1@));
        assert(states.last().organizer_events(organizer) =~= states[0].organizer_events(organizer)
            + ids);
    }
}

/// A payment against an inactive event is refused with the registry's
/// `EventInactive`; `process_payment` then leaves the ledger as it was, with
/// no payment, no index entry and no transfer request.
pub proof fn law_inactive_event_refused(
    ledger: &PaymentLedger,
    registry: &EventRegistry,
    signers: Seq<Address>,
    buyer: Seq<char>,
    event_id: Seq<char>,
    amount: i128,
)
    requires
        registry.events().contains_key(event_id),
        !registry.events()[event_id].is_active,
    ensures
        payment_refusal(ledger, registry, signers, buyer, event_id, amount) is Some,
        ledger.config() is Some && signed_by(signers, buyer) && amount > 0 && event_id.len() > 0
            ==> payment_refusal(
            ledger,
            registry,
            signers,
            buyer,
            event_id,
            amount,
        ) == Some(Error::EventRegistryError(EventRegistryError::EventInactive)),
{
}

/// A payment that is already confirmed or failed cannot be confirmed again:
/// `confirm_payment` is refused with `PaymentAlreadyConfirmed` and leaves
/// the record, its confirmation time and its transaction hash as they were.
pub proof fn law_terminal_payment_stays(
    ledger: &PaymentLedger,
    registry: &EventRegistry,
    signers: Seq<Address>,
    payment_id: Seq<char>,
)
    requires
        ledger.payments().contains_key(payment_id),
        ledger.payments()[payment_id].status != PaymentStatus::Pending,
    ensures
        confirm_refusal(ledger, registry, signers, payment_id) == Some(
            Error::PaymentAlreadyConfirmed,
        ),
        settle_refusal(ledger, signers, payment_id) == Some(Error::PaymentAlreadyConfirmed),
{
}

/// For an unknown payment id, `get_payment` answers `None` while
/// `confirm_payment` fails with `PaymentNotFound`.
pub proof fn law_unknown_payment(
    ledger: &PaymentLedger,
    registry: &EventRegistry,
    signers: Seq<Address>,
    payment_id: Seq<char>,
)
    requires
        !ledger.payments().contains_key(payment_id),
    ensures
        ledger.payment_lookup(payment_id) is None,
        confirm_refusal(ledger, registry, signers, payment_id) == Some(Error::PaymentNotFound),
{
}

} // verus!
