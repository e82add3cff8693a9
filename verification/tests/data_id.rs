use iscp::data_id::DataId;
use std::str::FromStr;

#[test]
fn data_id_validate() {
    assert!(DataId::new("name", "type").validate().is_ok());
    assert!(DataId::new("na:me", "type").validate().is_err());
    assert!(DataId::new("na+me", "type").validate().is_err());
    assert!(DataId::new("na#me", "type").validate().is_err());
    assert!(DataId::new("name", "ty:pe").validate().is_err());
    assert!(DataId::new("name", "ty+pe").validate().is_err());
    assert!(DataId::new("name", "ty#pe").validate().is_err());
}

#[test]
fn data_id_parse_str() {
    assert_eq!(
        DataId::from_str("type:name").unwrap(),
        DataId::new("name", "type"),
    );
    assert!(DataId::from_str("type-name").is_err());
    assert!(DataId::from_str("ty:pe:name").is_err());
    assert!(DataId::from_str("ty#pe:name").is_err());
    assert!(DataId::from_str("type:na+me").is_err());
}

#[test]
fn data_id_format() {
    let id = DataId::from_str("type:name").unwrap();
    assert_eq!(id.to_string(), "type:name");
}
