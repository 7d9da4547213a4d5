use event_ticketing::{Address, EventInfo, EventRegistry, EventRegistryError};

/// A well-formed account address whose key starts with `tag`.
fn account(tag: &str) -> Address {
    let mut key = String::from("G");
    key.push_str(tag);
    while key.len() < 56 {
        key.push('A');
    }
    Address::new(key)
}

fn registry_address() -> Address {
    let mut key = String::from("CREGISTRY");
    while key.len() < 56 {
        key.push('A');
    }
    Address::new(key)
}

fn initialized(admin: &Address, wallet: &Address, fee: u32) -> EventRegistry {
    let mut registry = EventRegistry::new(registry_address());
    registry.initialize(admin.clone(), wallet.clone(), fee).unwrap();
    registry
}

#[test]
fn test_initialize() {
    let admin = account("ADMIN");
    let platform_wallet = account("WALLET");
    let registry = initialized(&admin, &platform_wallet, 0);

    assert_eq!(registry.get_platform_fee(), Ok(500));
    assert_eq!(registry.get_admin(), Ok(admin));
    assert_eq!(registry.get_platform_wallet(), Ok(platform_wallet));
}

#[test]
fn test_double_initialization_fails() {
    let admin = account("ADMIN");
    let platform_wallet = account("WALLET");
    let mut registry = initialized(&admin, &platform_wallet, 500);
    let result = registry.initialize(admin.clone(), platform_wallet.clone(), 1000);
    assert_eq!(result, Err(EventRegistryError::AlreadyInitialized));
    assert_eq!(registry.get_platform_fee(), Ok(500));
}

#[test]
fn test_initialization_invalid_fee() {
    let mut registry = EventRegistry::new(registry_address());
    let result = registry.initialize(account("ADMIN"), account("WALLET"), 10001);
    assert_eq!(result, Err(EventRegistryError::InvalidFeePercent));
}

#[test]
fn test_initialization_invalid_address() {
    let mut registry = EventRegistry::new(registry_address());
    let result = registry.initialize(registry_address(), account("WALLET"), 500);
    assert_eq!(result, Err(EventRegistryError::InvalidAddress));
}

#[test]
fn test_set_platform_fee() {
    let admin = account("ADMIN");
    let mut registry = initialized(&admin, &account("WALLET"), 500);
    registry.set_platform_fee(&vec![admin.clone()], 10).unwrap();
    assert_eq!(registry.get_platform_fee(), Ok(10));
}

#[test]
fn test_set_platform_fee_invalid() {
    let admin = account("ADMIN");
    let mut registry = initialized(&admin, &account("WALLET"), 500);
    let result = registry.set_platform_fee(&vec![admin.clone()], 10001);
    assert_eq!(result, Err(EventRegistryError::InvalidFeePercent));
}

#[test]
fn test_set_platform_fee_unauthorized() {
    let admin = account("ADMIN");
    let mut registry = initialized(&admin, &account("WALLET"), 500);
    let result = registry.set_platform_fee(&vec![], 10);
    assert_eq!(result, Err(EventRegistryError::Unauthorized));
    assert_eq!(registry.get_platform_fee(), Ok(500));
}

#[test]
fn test_storage_operations() {
    let mut registry = initialized(&account("ADMIN"), &account("WALLET"), 500);

    let organizer = account("ORGANIZER");
    let payment_address = account("PAYEE");
    let event_id = String::from("event_123");

    let event_info = EventInfo {
        event_id: event_id.clone(),
        organizer_address: organizer.clone(),
        payment_address: payment_address.clone(),
        platform_fee_percent: 5,
        is_active: true,
        created_at: 0,
    };

    registry.store_event(event_info);

    assert!(registry.event_exists(&event_id));

    let stored_event = registry.get_event(&event_id).unwrap();
    assert_eq!(stored_event.event_id, event_id);
    assert_eq!(stored_event.organizer_address, organizer);
    assert_eq!(stored_event.payment_address, payment_address);
    assert_eq!(stored_event.platform_fee_percent, 5);
    assert!(stored_event.is_active);

    let fake_id = String::from("fake");
    assert!(!registry.event_exists(&fake_id));
    assert!(registry.get_event(&fake_id).is_none());
}

#[test]
fn test_organizer_events_list() {
    let organizer = account("ORGANIZER");
    let payment_address = account("PAYEE");

    let event_1 = EventInfo {
        event_id: String::from("e1"),
        organizer_address: organizer.clone(),
        payment_address: payment_address.clone(),
        platform_fee_percent: 5,
        is_active: true,
        created_at: 100,
    };

    let event_2 = EventInfo {
        event_id: String::from("e2"),
        organizer_address: organizer.clone(),
        payment_address: payment_address.clone(),
        platform_fee_percent: 5,
        is_active: true,
        created_at: 200,
    };

    let mut registry = EventRegistry::new(registry_address());
    registry.store_event(event_1.clone());
    registry.store_event(event_2.clone());

    let organizer_events = registry.get_organizer_events(&organizer);
    assert_eq!(organizer_events.len(), 2);
    assert_eq!(organizer_events[0], event_1.event_id);
    assert_eq!(organizer_events[1], event_2.event_id);
}

#[test]
fn test_register_event_success() {
    let organizer = account("ORGANIZER");
    let payment_addr = account("PAYEE");
    let mut registry = initialized(&account("ADMIN"), &account("WALLET"), 500);

    let event_id = String::from("event_001");
    registry
        .register_event(&vec![organizer.clone()], event_id.clone(), organizer.clone(), payment_addr.clone(), 0)
        .unwrap();

    let payment_info = registry.get_event_payment_info(&event_id).unwrap();
    assert_eq!(payment_info.payment_address, payment_addr);
    assert_eq!(payment_info.platform_fee_percent, 500);
}

#[test]
fn test_register_duplicate_event_fails() {
    let organizer = account("ORGANIZER");
    let payment_addr = account("PAYEE");
    let mut registry = initialized(&account("ADMIN"), &account("WALLET"), 500);

    let event_id = String::from("event_001");
    registry
        .register_event(&vec![organizer.clone()], event_id.clone(), organizer.clone(), payment_addr.clone(), 7)
        .unwrap();

    let result =
        registry.register_event(&vec![organizer.clone()], event_id.clone(), organizer.clone(), payment_addr.clone(), 9);
    assert_eq!(result, Err(EventRegistryError::EventAlreadyExists));
    assert_eq!(registry.get_event(&event_id).unwrap().created_at, 7);
    assert_eq!(registry.get_organizer_events(&organizer), vec![event_id]);
}

#[test]
fn test_get_event_payment_info() {
    let organizer = account("ORGANIZER");
    let payment_addr = account("PAYEE");
    let mut registry = initialized(&account("ADMIN"), &account("WALLET"), 750);

    let event_id = String::from("event_002");
    registry
        .register_event(&vec![organizer.clone()], event_id.clone(), organizer.clone(), payment_addr.clone(), 0)
        .unwrap();

    let info = registry.get_event_payment_info(&event_id).unwrap();
    assert_eq!(info.payment_address, payment_addr);
    assert_eq!(info.platform_fee_percent, 750);
}

#[test]
fn test_update_event_status() {
    let organizer = account("ORGANIZER");
    let mut registry = initialized(&account("ADMIN"), &account("WALLET"), 500);

    let event_id = String::from("event_001");
    registry
        .register_event(&vec![organizer.clone()], event_id.clone(), organizer.clone(), account("PAYEE"), 0)
        .unwrap();
    registry.update_event_status(&vec![organizer.clone()], &event_id, false).unwrap();

    let event_info = registry.get_event(&event_id).unwrap();
    assert!(!event_info.is_active);
}

#[test]
fn test_event_inactive_error() {
    let organizer = account("ORGANIZER");
    let mut registry = initialized(&account("ADMIN"), &account("WALLET"), 500);
    let event_id = String::from("event_001");
    registry
        .register_event(&vec![organizer.clone()], event_id.clone(), organizer.clone(), account("PAYEE"), 0)
        .unwrap();
    registry.update_event_status(&vec![organizer.clone()], &event_id, false).unwrap();

    let result = registry.get_event_payment_info(&event_id);
    assert_eq!(result, Err(EventRegistryError::EventInactive));
}

#[test]
fn test_complete_event_lifecycle() {
    let admin = account("ADMIN");
    let organizer = account("ORGANIZER");
    let payment_addr = account("PAYEE");
    let mut registry = initialized(&admin, &account("WALLET"), 600);

    let event_id = String::from("lifecycle_event");
    registry
        .register_event(&vec![organizer.clone()], event_id.clone(), organizer.clone(), payment_addr.clone(), 0)
        .unwrap();

    let payment_info = registry.get_event_payment_info(&event_id).unwrap();
    assert_eq!(payment_info.payment_address, payment_addr);
    assert_eq!(payment_info.platform_fee_percent, 600);

    let org_events = registry.get_organizer_events(&organizer);
    assert_eq!(org_events.len(), 1);
    assert!(org_events.contains(&event_id));

    registry.update_event_status(&vec![admin.clone()], &event_id, false).unwrap();

    let result = registry.get_event_payment_info(&event_id);
    assert_eq!(result, Err(EventRegistryError::EventInactive));

    let event_info = registry.get_event(&event_id).unwrap();
    assert!(!event_info.is_active);
}

#[test]
fn set_fee_then_get_returns_it_across_range() {
    let admin = account("ADMIN");
    let mut registry = initialized(&admin, &account("WALLET"), 500);
    for fee in [0u32, 1, 10, 600, 9999, 10000] {
        registry.set_platform_fee(&vec![admin.clone()], fee).unwrap();
        assert_eq!(registry.get_platform_fee(), Ok(fee));
    }
}

#[test]
fn set_fee_before_initialize_is_refused() {
    let mut registry = EventRegistry::new(registry_address());
    let result = registry.set_platform_fee(&vec![account("ADMIN")], 10);
    assert_eq!(result, Err(EventRegistryError::NotInitialized));
    assert_eq!(registry.get_platform_fee(), Err(EventRegistryError::NotInitialized));
}

#[test]
fn initialize_keeps_explicit_fee() {
    let registry = initialized(&account("ADMIN"), &account("WALLET"), 10000);
    assert_eq!(registry.get_platform_fee(), Ok(10000));
}

#[test]
fn organizer_events_keep_registration_order() {
    let organizer = account("ORGANIZER");
    let other = account("OTHER");
    let mut registry = initialized(&account("ADMIN"), &account("WALLET"), 500);
    let signers = vec![organizer.clone(), other.clone()];
    registry.register_event(&signers, String::from("e1"), organizer.clone(), account("PAYEE"), 1).unwrap();
    registry.register_event(&signers, String::from("x"), other.clone(), account("PAYEE"), 2).unwrap();
    registry.register_event(&signers, String::from("e2"), organizer.clone(), account("PAYEE"), 3).unwrap();
    assert_eq!(registry.get_organizer_events(&organizer), vec![String::from("e1"), String::from("e2")]);
    assert_eq!(registry.get_organizer_events(&other), vec![String::from("x")]);
    assert!(registry.get_organizer_events(&account("NOBODY")).is_empty());
}

#[test]
fn register_event_records_time_and_default_fee() {
    let admin = account("ADMIN");
    let organizer = account("ORGANIZER");
    let mut registry = initialized(&admin, &account("WALLET"), 500);
    registry.set_platform_fee(&vec![admin.clone()], 250).unwrap();
    let event_id = String::from("timed");
    registry.register_event(&vec![organizer.clone()], event_id.clone(), organizer.clone(), account("PAYEE"), 1234).unwrap();
    let event = registry.get_event(&event_id).unwrap();
    assert_eq!(event.created_at, 1234);
    assert_eq!(event.platform_fee_percent, 250);
    assert!(event.is_active);
}

#[test]
fn register_event_needs_organizer_signature() {
    let organizer = account("ORGANIZER");
    let mut registry = initialized(&account("ADMIN"), &account("WALLET"), 500);
    let result = registry.register_event(&vec![account("SOMEONE")], String::from("e"), organizer.clone(), account("PAYEE"), 0);
    assert_eq!(result, Err(EventRegistryError::Unauthorized));
    assert!(!registry.event_exists(&String::from("e")));
}

#[test]
fn register_event_rejects_malformed_payment_address() {
    let organizer = account("ORGANIZER");
    let mut registry = initialized(&account("ADMIN"), &account("WALLET"), 500);
    for bad in ["", "GSHORT", "XAAAAAAAAAAAAAAAAAAAAAAAAAAAAAAAAAAAAAAAAAAAAAAAAAAAAAAA", "GAAAAAAAAAAAAAAAAAAAAAAAAAAAAAAAAAAAAAAAAAAAAAAAAAAAAAA1"] {
        let result = registry.register_event(&vec![organizer.clone()], String::from("e"), organizer.clone(), Address::new(String::from(bad)), 0);
        assert_eq!(result, Err(EventRegistryError::InvalidAddress));
    }
    assert!(registry.get_organizer_events(&organizer).is_empty());
}

#[test]
fn register_event_before_initialize_is_refused() {
    let organizer = account("ORGANIZER");
    let mut registry = EventRegistry::new(registry_address());
    let result = registry.register_event(&vec![organizer.clone()], String::from("e"), organizer.clone(), account("PAYEE"), 0);
    assert_eq!(result, Err(EventRegistryError::NotInitialized));
}

#[test]
fn update_status_needs_admin_or_organizer() {
    let organizer = account("ORGANIZER");
    let mut registry = initialized(&account("ADMIN"), &account("WALLET"), 500);
    let event_id = String::from("e");
    registry.register_event(&vec![organizer.clone()], event_id.clone(), organizer.clone(), account("PAYEE"), 0).unwrap();
    let result = registry.update_event_status(&vec![account("STRANGER")], &event_id, false);
    assert_eq!(result, Err(EventRegistryError::Unauthorized));
    assert!(registry.get_event(&event_id).unwrap().is_active);
}

#[test]
fn update_status_of_unknown_event_is_refused() {
    let admin = account("ADMIN");
    let mut registry = initialized(&admin, &account("WALLET"), 500);
    let result = registry.update_event_status(&vec![admin.clone()], &String::from("missing"), false);
    assert_eq!(result, Err(EventRegistryError::EventNotFound));
}

#[test]
fn event_can_be_reactivated() {
    let organizer = account("ORGANIZER");
    let mut registry = initialized(&account("ADMIN"), &account("WALLET"), 500);
    let event_id = String::from("e");
    registry.register_event(&vec![organizer.clone()], event_id.clone(), organizer.clone(), account("PAYEE"), 0).unwrap();
    registry.update_event_status(&vec![organizer.clone()], &event_id, false).unwrap();
    registry.update_event_status(&vec![organizer.clone()], &event_id, true).unwrap();
    assert_eq!(registry.get_event_payment_info(&event_id).unwrap().platform_fee_percent, 500);
    assert_eq!(registry.get_organizer_events(&organizer).len(), 1);
}

#[test]
fn payment_info_of_unknown_event_is_not_found() {
    let registry = initialized(&account("ADMIN"), &account("WALLET"), 500);
    assert_eq!(registry.get_event_payment_info(&String::from("nope")), Err(EventRegistryError::EventNotFound));
}

#[test]
fn store_event_replaces_record() {
    let organizer = account("ORGANIZER");
    let mut registry = EventRegistry::new(registry_address());
    let mut event = EventInfo {
        event_id: String::from("e"),
        organizer_address: organizer.clone(),
        payment_address: account("PAYEE"),
        platform_fee_percent: 5,
        is_active: true,
        created_at: 1,
    };
    registry.store_event(event.clone());
    event.platform_fee_percent = 9;
    registry.store_event(event.clone());
    assert_eq!(registry.get_event(&String::from("e")), Some(event));
}

#[test]
fn registry_error_codes_and_messages() {
    assert_eq!(EventRegistryError::EventAlreadyExists.code(), 1);
    assert_eq!(EventRegistryError::AlreadyInitialized.code(), 8);
    assert_eq!(EventRegistryError::EventInactive.message(), "Trying to interact with inactive event");
}

#[test]
fn registry_error_texts() {
    let cases = [
        (EventRegistryError::EventAlreadyExists, "Event already exists"),
        (EventRegistryError::EventNotFound, "Event not found"),
        (EventRegistryError::Unauthorized, "Caller not authorized for action"),
        (EventRegistryError::InvalidAddress, "Invalid Stellar address"),
        (EventRegistryError::InvalidFeePercent, "Fee percent must be between 0 and 10000"),
        (EventRegistryError::EventInactive, "Trying to interact with inactive event"),
        (EventRegistryError::NotInitialized, "Contract not initialized"),
        (EventRegistryError::AlreadyInitialized, "Contract already initialized"),
    ];
    for (e, text) in cases {
        assert_eq!(e.message(), text);
    }
}
