use push_codec::ServiceId;

#[test]
fn serviceid_new() {
    assert!(ServiceId::new("s:example").is_ok());
    assert!(ServiceId::new("error").is_err());
}

#[test]
fn serviceid_example() {
    assert!(ServiceId::example().is_example());

    let example_sid = ServiceId::new("s:example").unwrap();
    assert!(example_sid.is_example());

    let not_example_sid = ServiceId::new("s:not_example").unwrap();
    assert!(!not_example_sid.is_example());
}

#[test]
fn serviceid_as_str() {
    let sid = ServiceId::new("s:mine").unwrap();
    assert_eq!(sid.as_str(), "s:mine");
}
