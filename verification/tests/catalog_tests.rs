use wia_scan::DeviceCatalog;

#[test]
fn empty_enumeration_is_empty_and_offers_no_scan() {
    let catalog = DeviceCatalog::new();
    assert_eq!(catalog.device_count(), 0);
    assert!(!catalog.has_devices());
    assert!(catalog.records().is_empty());
    assert!(catalog.lookup(1).is_none());
}

#[test]
fn devices_get_ordinals_in_enumeration_order() {
    let mut catalog = DeviceCatalog::new();
    catalog.add_device(
        String::from("DEV001"),
        String::from("Front scanner"),
        String::from("Flatbed scanner"),
    );
    catalog.add_device(
        String::from("DEV002"),
        String::from("Back scanner"),
        String::from("Feeder scanner"),
    );
    assert_eq!(catalog.device_count(), 2);
    assert!(catalog.has_devices());
    let records = catalog.records();
    assert_eq!(records[0].ordinal, 1);
    assert_eq!(records[0].identifier, "DEV001");
    assert_eq!(records[1].ordinal, 2);
    assert_eq!(records[1].identifier, "DEV002");
}

#[test]
fn lookup_finds_exactly_the_assigned_ordinals() {
    let mut catalog = DeviceCatalog::new();
    catalog.add_device(String::from("DEV001"), String::from("A"), String::from("a"));
    catalog.add_device(String::from("DEV002"), String::from("B"), String::from("b"));

    assert!(catalog.lookup(0).is_none());
    let first = catalog.lookup(1).expect("ordinal 1");
    assert_eq!(first.identifier, "DEV001");
    assert_eq!(first.name, "A");
    assert_eq!(first.description, "a");
    let second = catalog.lookup(2).expect("ordinal 2");
    assert_eq!(second.identifier, "DEV002");
    assert!(catalog.lookup(3).is_none());
}
