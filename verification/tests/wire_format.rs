use sms_client::address::Address;
use sms_client::rest_api::{PlatformID, PlatformPartnerID, SMS};
use sms_client::ty::{Currency, Date, KeyValue, Priority, ToN, DCS};

fn minimal() -> SMS {
    SMS::with_text(
        Address::new("+4712345678".to_string()),
        Address::new("+4798765432".to_string()),
        PlatformID::new("pid1".to_string()),
        PlatformPartnerID::new("ppid1".to_string()),
        "hello".to_string(),
    )
}

fn parse(sms: &SMS) -> serde_json::Value {
    serde_json::from_str(&sms.to_wire_json()).unwrap()
}

#[test]
fn minimal_message_has_exactly_the_mandatory_keys() {
    let v = parse(&minimal());
    let obj = v.as_object().unwrap();
    assert_eq!(obj.len(), 5);
    assert_eq!(obj["source"], serde_json::Value::from("+4712345678"));
    assert_eq!(obj["destination"], serde_json::Value::from("+4798765432"));
    assert_eq!(obj["userData"], serde_json::Value::from("hello"));
    assert_eq!(obj["platformId"], serde_json::Value::from("pid1"));
    assert_eq!(obj["platformPartnerId"], serde_json::Value::from("ppid1"));
}

#[test]
fn minimal_message_exact_text() {
    let json = minimal().to_wire_json();
    let expected = "{\"source\":\"+4712345678\",\"destination\":\"+4798765432\",\"userData\":\"hello\",\"platformId\":\"pid1\",\"platformPartnerId\":\"ppid1\"}";
    assert_eq!(json, expected);
}

#[test]
fn source_ton_present_when_set_absent_when_unset() {
    let mut sms = minimal();
    assert!(parse(&sms).get("sourceTON").is_none());
    sms.source_ton = Some(ToN::Alphanumeric);
    assert_eq!(parse(&sms)["sourceTON"], serde_json::Value::from("ALPHANUMERIC"));
}

#[test]
fn destination_ton_present_when_set_absent_when_unset() {
    let mut sms = minimal();
    assert!(parse(&sms).get("destinationTON").is_none());
    sms.destination_ton = Some(ToN::Msisdn);
    assert_eq!(parse(&sms)["destinationTON"], serde_json::Value::from("MSISDN"));
}

#[test]
fn dcs_present_when_set_absent_when_unset() {
    let mut sms = minimal();
    assert!(parse(&sms).get("dcs").is_none());
    sms.dcs = Some(DCS::Text);
    assert_eq!(parse(&sms)["dcs"], serde_json::Value::from("TEXT"));
}

#[test]
fn user_data_header_present_when_set_absent_when_unset() {
    let mut sms = minimal();
    assert!(parse(&sms).get("userDataHeader").is_none());
    sms.user_data_header = Some("050003".to_string());
    assert_eq!(parse(&sms)["userDataHeader"], serde_json::Value::from("050003"));
}

#[test]
fn use_deliver_report_present_when_set_absent_when_unset() {
    let mut sms = minimal();
    assert!(parse(&sms).get("useDeliveryReport").is_none());
    sms.use_deliver_report = Some(true);
    assert_eq!(parse(&sms)["useDeliveryReport"], serde_json::Value::from(true));
    sms.use_deliver_report = Some(false);
    assert_eq!(parse(&sms)["useDeliveryReport"], serde_json::Value::from(false));
}

#[test]
fn deliver_report_gates_present_when_set_absent_when_unset() {
    let mut sms = minimal();
    assert!(parse(&sms).get("deliveryReportGates").is_none());
    sms.deliver_report_gates = Some(vec!["gate1".to_string(), "gate2".to_string()]);
    let v = parse(&sms);
    let gates = v["deliveryReportGates"].as_array().unwrap();
    assert_eq!(gates.len(), 2);
    assert_eq!(gates[0], serde_json::Value::from("gate1"));
    assert_eq!(gates[1], serde_json::Value::from("gate2"));
    sms.deliver_report_gates = Some(Vec::new());
    assert_eq!(parse(&sms)["deliveryReportGates"].as_array().unwrap().len(), 0);
}

#[test]
fn relative_validity_time_present_when_set_absent_when_unset() {
    let mut sms = minimal();
    assert!(parse(&sms).get("relativeValidityTime").is_none());
    sms.relative_validity_time = Some(172800000);
    assert_eq!(parse(&sms)["relativeValidityTime"], serde_json::Value::from(172800000u64));
    sms.relative_validity_time = Some(u64::MAX);
    assert_eq!(parse(&sms)["relativeValidityTime"], serde_json::Value::from(u64::MAX));
}

#[test]
fn absolute_validity_time_present_when_set_absent_when_unset() {
    let mut sms = minimal();
    assert!(parse(&sms).get("absoluteValidityTime").is_none());
    sms.absolute_validity_time = Some(Date {
        year: 2010,
        month: 3,
        day: 30,
        hour: 12,
        minute: 59,
        second: 40,
        offset_east: true,
        offset_hours: 2,
        offset_minutes: 0,
    });
    assert_eq!(
        parse(&sms)["absoluteValidityTime"],
        serde_json::Value::from("2010-03-30T12:59:40+02:00")
    );
}

#[test]
fn date_renders_rfc3339_with_padding_and_west_offset() {
    let d = Date {
        year: 987,
        month: 1,
        day: 2,
        hour: 3,
        minute: 4,
        second: 5,
        offset_east: false,
        offset_hours: 11,
        offset_minutes: 30,
    };
    assert_eq!(d.rfc3339_string(), "0987-01-02T03:04:05-11:30");
}

#[test]
fn tariff_present_when_set_absent_when_unset() {
    let mut sms = minimal();
    assert!(parse(&sms).get("tariff").is_none());
    sms.tariff = Some(500);
    assert_eq!(parse(&sms)["tariff"], serde_json::Value::from(500u32));
    sms.tariff = Some(0);
    assert_eq!(parse(&sms)["tariff"], serde_json::Value::from(0u32));
}

#[test]
fn currency_present_when_set_absent_when_unset() {
    let mut sms = minimal();
    assert!(parse(&sms).get("currency").is_none());
    sms.currency = Some(Currency::NOK);
    assert_eq!(parse(&sms)["currency"], serde_json::Value::from("NOK"));
    sms.currency = Some(Currency::EUR);
    assert_eq!(parse(&sms)["currency"], serde_json::Value::from("EUR"));
}

#[test]
fn age_present_when_set_absent_when_unset() {
    let mut sms = minimal();
    assert!(parse(&sms).get("age").is_none());
    sms.age = Some(18);
    assert_eq!(parse(&sms)["age"], serde_json::Value::from(18u32));
}

#[test]
fn priority_present_when_set_absent_when_unset() {
    let mut sms = minimal();
    assert!(parse(&sms).get("priority").is_none());
    sms.priority = Some(Priority::High);
    assert_eq!(parse(&sms)["priority"], serde_json::Value::from("High"));
    sms.priority = Some(Priority::Normal);
    assert_eq!(parse(&sms)["priority"], serde_json::Value::from("Normal"));
    sms.priority = Some(Priority::Low);
    assert_eq!(parse(&sms)["priority"], serde_json::Value::from("Low"));
}

#[test]
fn ref_id_present_when_set_absent_when_unset() {
    let mut sms = minimal();
    assert!(parse(&sms).get("refId").is_none());
    sms.ref_id = Some("tx-42".to_string());
    assert_eq!(parse(&sms)["refId"], serde_json::Value::from("tx-42"));
}

#[test]
fn product_description_present_when_set_absent_when_unset() {
    let mut sms = minimal();
    assert!(parse(&sms).get("productDescription").is_none());
    sms.product_description = Some("donation".to_string());
    assert_eq!(parse(&sms)["productDescription"], serde_json::Value::from("donation"));
}

#[test]
fn product_category_present_when_set_absent_when_unset() {
    let mut sms = minimal();
    assert!(parse(&sms).get("productCategory").is_none());
    sms.product_category = Some(7);
    assert_eq!(parse(&sms)["productCategory"], serde_json::Value::from(7u32));
}

#[test]
fn mo_reference_id_present_when_set_absent_when_unset() {
    let mut sms = minimal();
    assert!(parse(&sms).get("moReferenceId").is_none());
    sms.mo_reference_id = Some("mo-9".to_string());
    assert_eq!(parse(&sms)["moReferenceId"], serde_json::Value::from("mo-9"));
}

#[test]
fn custom_parameters_present_when_set_absent_when_unset() {
    let mut sms = minimal();
    assert!(parse(&sms).get("customParameters").is_none());
    sms.custom_parameters = Some(KeyValue::new(vec![
        ("k1".to_string(), "v1".to_string()),
        ("k2".to_string(), "v2".to_string()),
    ]));
    let v = parse(&sms);
    let obj = v["customParameters"].as_object().unwrap();
    assert_eq!(obj.len(), 2);
    assert_eq!(obj["k1"], serde_json::Value::from("v1"));
    assert_eq!(obj["k2"], serde_json::Value::from("v2"));
}

#[test]
fn empty_custom_parameters_serialize_to_empty_object() {
    let mut sms = minimal();
    sms.custom_parameters = Some(KeyValue::new(Vec::new()));
    let v = parse(&sms);
    assert_eq!(v["customParameters"].as_object().unwrap().len(), 0);
}

#[test]
fn ignore_response_present_when_set_absent_when_unset() {
    let mut sms = minimal();
    assert!(parse(&sms).get("ignoreResponse").is_none());
    sms.ignore_response = Some(true);
    assert_eq!(parse(&sms)["ignoreResponse"], serde_json::Value::from(true));
}

#[test]
fn message_text_with_quotes_and_backslashes_is_escaped() {
    let mut sms = minimal();
    sms.user_data = "a\"b\\c\nd".to_string();
    let v = parse(&sms);
    assert_eq!(v["userData"], serde_json::Value::from("a\"b\\c\nd"));
}

#[test]
fn all_fields_set_round_trips_through_a_json_parser() {
    let mut sms = minimal();
    sms.source_ton = Some(ToN::Alphanumeric);
    sms.destination_ton = Some(ToN::Msisdn);
    sms.dcs = Some(DCS::Text);
    sms.user_data_header = Some("0500".to_string());
    sms.use_deliver_report = Some(true);
    sms.deliver_report_gates = Some(vec!["g".to_string()]);
    sms.relative_validity_time = Some(1);
    sms.absolute_validity_time = Some(Date {
        year: 2024,
        month: 12,
        day: 31,
        hour: 23,
        minute: 59,
        second: 59,
        offset_east: true,
        offset_hours: 0,
        offset_minutes: 0,
    });
    sms.tariff = Some(500);
    sms.currency = Some(Currency::SEK);
    sms.age = Some(18);
    sms.priority = Some(Priority::Low);
    sms.ref_id = Some("r".to_string());
    sms.product_description = Some("p".to_string());
    sms.product_category = Some(2);
    sms.mo_reference_id = Some("m".to_string());
    sms.custom_parameters = Some(KeyValue::new(vec![("a".to_string(), "b".to_string())]));
    sms.ignore_response = Some(false);
    let v = parse(&sms);
    assert_eq!(v.as_object().unwrap().len(), 23);
}

#[test]
fn decimal_rendering_is_exact() {
    assert_eq!(sms_client::json::u64_decimal(0), "0");
    assert_eq!(sms_client::json::u64_decimal(10), "10");
    assert_eq!(sms_client::json::u64_decimal(18446744073709551615), "18446744073709551615");
    assert_eq!(sms_client::json::u32_decimal(4294967295), "4294967295");
}

#[test]
fn address_and_identifier_getters_return_what_was_stored() {
    let a = Address::new("+47".to_string());
    assert_eq!(a.as_str(), "+47");
    assert_eq!(a.into_inner(), "+47");
    assert_eq!(PlatformID::new("x".to_string()).as_str(), "x");
    assert_eq!(PlatformPartnerID::new("y".to_string()).as_str(), "y");
}
