use lob::codec::{decode_optional, decode_yn, encode_optional, encode_yn, WireText};
use lob::money::CheckAmount;
use lob::vocab::{body_candidates, BodyShape, Resource};
use lob::vocab::{
    AccountType, Case, ExtraService, LetterAddressPlacement, MailType, Order, RecordType,
    SuiteReturnCode, AddressType, DpvConfirmation,
    CarrierRouteType, Deliverability, DpvCode, EventTypeId, LacsReturnCode, ListIncludeOptions,
    ObjectTag, PostcardSize, ZipCodeType,
};

#[test]
fn optional_text_absent_is_empty() {
    let none: Option<String> = None;
    let encoded = encode_optional(&none);
    assert_eq!(encoded, "");
    let decoded: Option<String> = decode_optional(&encoded).unwrap();
    assert_eq!(decoded, None);
}

#[test]
fn optional_text_present_round_trips() {
    for v in ["a", "Suite 200", "  "] {
        let encoded = encode_optional(&Some(v.to_string()));
        assert_eq!(encoded, v);
        let decoded: Option<String> = decode_optional(&encoded).unwrap();
        assert_eq!(decoded, Some(v.to_string()));
    }
}

#[test]
fn optional_token_decodes_and_rejects() {
    let z: Option<ZipCodeType> = decode_optional("po_box").unwrap();
    assert_eq!(z, Some(ZipCodeType::PoBox));
    let none: Option<ZipCodeType> = decode_optional("").unwrap();
    assert_eq!(none, None);
    let err = decode_optional::<ZipCodeType>("bogus").unwrap_err();
    assert_eq!(err.found, "bogus");
    assert_eq!(err.expected, "zip_code_type");
    assert_eq!(err.message(), "Expected zip_code_type, found bogus");
    assert_eq!(encode_optional(&Some(ZipCodeType::PoBox)), "po_box");
}

#[test]
fn yes_no_tri_state() {
    assert_eq!(decode_yn("Y").unwrap(), Some(true));
    assert_eq!(decode_yn("N").unwrap(), Some(false));
    assert_eq!(decode_yn("").unwrap(), None);
    assert_eq!(encode_yn(Some(true)), "Y");
    assert_eq!(encode_yn(Some(false)), "N");
    assert_eq!(encode_yn(None), "");
}

#[test]
fn yes_no_rejects_other_literals() {
    for other in ["y", "n", "YES", "true", " ", "YN"] {
        let e = decode_yn(other).unwrap_err();
        assert_eq!(e.found, format!("'{}'", other));
        assert_eq!(e.message(), format!("Expected 'Y', 'N', or '', found '{}'", other));
    }
}

#[test]
fn vocabulary_tokens() {
    assert_eq!(Deliverability::DeliverableMissingUnit.as_str(), "deliverable_missing_unit");
    assert_eq!(CarrierRouteType::from_wire("contract"), Some(CarrierRouteType::Contract));
    assert_eq!(LacsReturnCode::from_wire("92"), Some(LacsReturnCode::_92));
    assert_eq!(LacsReturnCode::_00.as_str(), "00");
    assert_eq!(DpvCode::from_wire("RR"), Some(DpvCode::RR));
    assert_eq!(PostcardSize::SixByEleven.to_wire(), "6x11");
    assert_eq!(EventTypeId::from_wire("postcard.re-routed"), Some(EventTypeId::PostcardReRouted));
    assert_eq!(EventTypeId::BankAccountVerified.as_str(), "bank_account.verified");
    assert_eq!(ListIncludeOptions::TotalCount.as_str(), "total_count");
    assert_eq!(Deliverability::from_wire("Deliverable"), None);
    assert_eq!(EventTypeId::from_wire("postcard.unknown"), None);
}

#[test]
fn object_tag_mismatch_is_rejected() {
    assert!(ObjectTag::Postcard.check("postcard").is_ok());
    let e = ObjectTag::Postcard.check("letter").unwrap_err();
    assert_eq!(e.found, "letter");
    assert_eq!(e.expected, "postcard");
    assert_eq!(e.message(), "Expected postcard, found letter");
    let e = ObjectTag::Address.check("postcard").unwrap_err();
    assert_eq!(e.message(), "Expected address, found postcard");
    assert!(ObjectTag::InternationalVerification.check("intl_verification").is_ok());
    assert!(ObjectTag::BankAccount.check("check").is_err());
    assert!(ObjectTag::List.check("").is_err());
}

#[test]
fn money_canonical_text() {
    assert_eq!(CheckAmount::new(10, 0).to_text(), "10.00");
    assert_eq!(CheckAmount::cents(1005).to_text(), "10.05");
    assert_eq!(CheckAmount::cents(7).to_text(), "0.07");
    assert_eq!(CheckAmount::cents(123456).to_text(), "1234.56");
    assert_eq!(CheckAmount::new(30, 10).to_cents(), 3010);
    assert_eq!(CheckAmount::cents(3010).to_dollars_and_cents(), (30, 10));
}

#[test]
fn money_parse() {
    assert_eq!(CheckAmount::parse("10.05").unwrap().to_cents(), 1005);
    assert_eq!(CheckAmount::parse("10").unwrap().to_cents(), 1000);
    assert_eq!(CheckAmount::parse("10.5").unwrap().to_cents(), 1005);
    assert_eq!(CheckAmount::parse("+3.01").unwrap().to_cents(), 301);
    assert_eq!("4.20".parse::<CheckAmount>().unwrap().to_cents(), 420);
    assert_eq!("10".parse::<CheckAmount>().unwrap().to_cents(), 1000);
    assert_eq!("10.50".parse::<CheckAmount>().unwrap().to_cents(), 1050);
    let e = "ten".parse::<CheckAmount>().unwrap_err();
    assert_eq!(e.message(), "Unable to parse ten as money");
    assert!("184467440737095517.00".parse::<CheckAmount>().is_err());
}

#[test]
fn money_parse_errors() {
    let e = CheckAmount::parse("abc").unwrap_err();
    assert_eq!(e.message(), "Unable to parse abc as money");
    assert!(CheckAmount::parse("").is_err());
    assert!(CheckAmount::parse("10.").is_err());
    assert!(CheckAmount::parse("10.x").is_err());
    assert!(CheckAmount::parse("-1.00").is_err());
    assert!(CheckAmount::parse("184467440737095516.16").is_err());
}

#[test]
fn money_round_trip() {
    for c in [0u64, 1, 9, 10, 99, 100, 101, 1005, 999_999, u64::MAX] {
        let a = CheckAmount::cents(c);
        assert_eq!(CheckAmount::parse(&a.to_text()).unwrap(), a);
    }
}

#[test]
fn event_body_precedence() {
    assert_eq!(body_candidates(EventTypeId::PostcardCreated), vec![BodyShape::Postcard]);
    assert_eq!(body_candidates(EventTypeId::CheckDeleted), vec![BodyShape::Check, BodyShape::Delete]);
    assert_eq!(body_candidates(EventTypeId::BankAccountVerified), vec![BodyShape::BankAccount]);
    assert_eq!(EventTypeId::AddressDeleted.resource(), Resource::Addresses);
    assert!(EventTypeId::LetterDeleted.is_deletion());
    assert!(!EventTypeId::LetterMailed.is_deletion());
}

fn round_trips<T: WireText + PartialEq + std::fmt::Debug + Copy>(all: &[T]) {
    for v in all {
        assert_eq!(T::from_wire(&v.to_wire()), Some(*v));
        assert!(!v.to_wire().is_empty());
    }
    for a in all {
        for b in all {
            assert_eq!(a == b, a.to_wire() == b.to_wire());
        }
    }
}

#[test]
fn vocabularies_round_trip() {
    round_trips(&[Case::Upper, Case::Lower]);
    round_trips(&[AddressType::Residential, AddressType::Commercial]);
    round_trips(&[RecordType::Street, RecordType::Highrise, RecordType::Firm, RecordType::PoBox, RecordType::RuralRoute]);
    round_trips(&[
        CarrierRouteType::CityDelivery,
        CarrierRouteType::RuralRoute,
        CarrierRouteType::HighwayContract,
        CarrierRouteType::PoBox,
        CarrierRouteType::GeneralDelivery,
        CarrierRouteType::Contract,
    ]);
    round_trips(&[DpvConfirmation::Y, DpvConfirmation::S, DpvConfirmation::D, DpvConfirmation::N]);
    round_trips(&[LacsReturnCode::A, LacsReturnCode::_92, LacsReturnCode::_14, LacsReturnCode::_00]);
    round_trips(&[SuiteReturnCode::A, SuiteReturnCode::_00]);
    round_trips(&[MailType::UspsFirstClass, MailType::UspsStandard, MailType::UpsNextDayAir]);
    round_trips(&[LetterAddressPlacement::TopFirstPage, LetterAddressPlacement::InsertBlankPage]);
    round_trips(&[ExtraService::Certified, ExtraService::CertifiedReturnReceipt, ExtraService::Registered]);
    round_trips(&[AccountType::Company, AccountType::Individual]);
    round_trips(&[Order::Asc, Order::Desc]);
    round_trips(&[PostcardSize::FourBySix, PostcardSize::SixByNine, PostcardSize::SixByEleven]);
    round_trips(&[
        Deliverability::Deliverable,
        Deliverability::DeliverableUnnecessaryUnit,
        Deliverability::DeliverableIncorrectUnit,
        Deliverability::DeliverableMissingUnit,
        Deliverability::Undeliverable,
    ]);
    round_trips(&[
        ObjectTag::Address, ObjectTag::UsVerification, ObjectTag::UsAutocompletion, ObjectTag::UsZipLookup,
        ObjectTag::InternationalVerification, ObjectTag::Postcard, ObjectTag::Letter, ObjectTag::Check,
        ObjectTag::BankAccount, ObjectTag::TrackingEvent, ObjectTag::Event, ObjectTag::EventType,
        ObjectTag::Envelope, ObjectTag::List,
    ]);
}
