use happy::scanner::{device_info, find_peripheral, find_write_characteristic, ScanError};

#[test]
fn device_with_local_name() {
    let d = device_info("11:22".to_string(), Some("QHM-1234".to_string()));
    assert_eq!(d.id, "11:22");
    assert_eq!(d.name, "QHM-1234");
}

#[test]
fn device_without_local_name_is_unknown() {
    let d = device_info("11:22".to_string(), None);
    assert_eq!(d.id, "11:22");
    assert_eq!(d.name, "unknown");
}

#[test]
fn find_peripheral_returns_first_match() {
    let ids = vec!["a".to_string(), "b".to_string(), "b".to_string()];
    assert_eq!(find_peripheral(&ids, "b").unwrap(), 1);
    assert_eq!(find_peripheral(&ids, "a").unwrap(), 0);
}

#[test]
fn find_peripheral_not_found() {
    let ids = vec!["a".to_string()];
    match find_peripheral(&ids, "zz") {
        Err(e) => {
            let ScanError::NotFound(id) = &e;
            assert_eq!(id, "zz");
            assert_eq!(e.message(), "Peripheral with address zz not found");
        }
        Ok(_) => panic!("expected an error"),
    }
    assert!(find_peripheral(&Vec::new(), "a").is_err());
}

#[test]
fn find_write_characteristic_needs_both_flags() {
    // WRITE_WITHOUT_RESPONSE = 0x04, WRITE = 0x08
    let required = 0x04 | 0x08;
    let props = vec![0x02, 0x04, 0x08, 0x0C | 0x10, 0x0C];
    assert_eq!(find_write_characteristic(&props, required), Some(3));
    assert_eq!(find_write_characteristic(&vec![0x04, 0x08], required), None);
    assert_eq!(find_write_characteristic(&Vec::new(), required), None);
}
