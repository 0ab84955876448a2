use lob::error::{Error, ErrorKind, LobError, TransportError};
use lob::model::{CalendarDate, FileInput, NewCheck, NewLetter, NewPostcard, SendAddress, SendAddressComponents, Timestamp};
use lob::money::CheckAmount;
use lob::strmap::StringMap;
use lob::query::{DateFilter, ListAddressesOptions, ListCheckOptions, ListPostcardOptions, SortBy};
use lob::request::{
    forwarded_for, is_success_status, prepare_check, valid_addresses_only, verify_bank_account_url,
    AddressVerificationComponents, AddressVerificationInput, AutocompleteAddressOptions,
    AutocompleteAddressOptionsQuery, Endpoint, VerifyAddress, VerifyAddressOptions, API_VERSION,
};
use lob::vocab::{Case, ListIncludeOptions, MailType, Order, PostcardSize};

fn address() -> SendAddress {
    SendAddress::Components(SendAddressComponents {
        name: "Jared Polis".to_string(),
        address_line1: "200 E Colfax Ave".to_string(),
        address_line2: None,
        address_city: "Denver".to_string(),
        address_state: "CO".to_string(),
        address_zip: "80203".to_string(),
        address_country: None,
    })
}

fn check(logo: Option<FileInput>, message: Option<String>, check_bottom: Option<FileInput>) -> NewCheck {
    NewCheck {
        description: Some("another description!".to_string()),
        to: address(),
        from: SendAddress::from("adr_123".to_string()),
        bank_account: "a_fake_bank_account".to_string(),
        amount: CheckAmount::new(30, 10),
        memo: None,
        check_number: None,
        logo,
        message,
        check_bottom,
        attachment: None,
        mail_type: Some(MailType::UspsFirstClass),
        send_date: Some(CalendarDate { year: 2030, month: 1, day: 2 }),
        metadata: None,
    }
}

fn bad_request_text(r: Result<(), Error>) -> String {
    match r.unwrap_err().kind() {
        ErrorKind::BadRequest(m) => m.clone(),
        other => panic!("expected a bad request, got {:?}", other),
    }
}

#[test]
fn check_logo_template_or_html_is_rejected() {
    let html = check(Some(FileInput::Html("<b>logo</b>".to_string())), Some("a message!".to_string()), None);
    assert_eq!(bad_request_text(html.validate()), "logo must be `File` or `URL`");
    let template = check(Some(FileInput::TemplateId("tmpl_1".to_string())), Some("a message!".to_string()), None);
    assert_eq!(bad_request_text(template.validate()), "logo must be `File` or `URL`");
    assert!(prepare_check(&template).is_err());
}

#[test]
fn check_needs_exactly_one_of_message_and_bottom() {
    let rule = "One, but not both, of `check_bottom` and `message` must be set";
    let both = check(None, Some("a message!".to_string()), Some(FileInput::Html("<p/>".to_string())));
    assert_eq!(bad_request_text(both.validate()), rule);
    let neither = check(None, None, None);
    assert_eq!(bad_request_text(neither.validate()), rule);
    let e = prepare_check(&neither).unwrap_err();
    assert!(!e.is_retryable());
}

#[test]
fn valid_check_is_prepared() {
    let logo = FileInput::Url("https://s3-us-west-2.amazonaws.com/public.lob.com/logo/LobLogoLightSmall.png".to_string());
    let ok = check(Some(logo), Some("a message!".to_string()), None);
    assert!(ok.validate().is_ok());
    let split = prepare_check(&ok).unwrap();
    assert!(split.parts.is_empty());
    assert_eq!(split.inline.len(), 1);
    assert_eq!(split.inline[0].field, "logo");
    let file_logo = FileInput::File { filename: "logo.png".to_string(), data: vec![1, 2, 3] };
    let with_file = check(Some(file_logo), None, Some(FileInput::TemplateId("tmpl_9".to_string())));
    let split = prepare_check(&with_file).unwrap();
    assert_eq!(split.parts.len(), 1);
    assert_eq!(split.parts[0].field, "logo");
    assert_eq!(split.parts[0].filename, "logo.png");
    assert_eq!(split.parts[0].data, vec![1, 2, 3]);
    assert_eq!(split.inline.len(), 1);
    assert_eq!(split.inline[0].field, "check_bottom");
    assert_eq!(split.inline[0].value, "tmpl_9");
}

#[test]
fn postcard_file_and_html_split() {
    let postcard = NewPostcard {
        description: None,
        to: address(),
        from: None,
        front: FileInput::File { filename: "front.pdf".to_string(), data: vec![37, 80, 68, 70] },
        back: FileInput::Html("<html>back</html>".to_string()),
        merge_variables: None,
        size: Some(PostcardSize::FourBySix),
        mail_type: None,
        send_date: None,
        metadata: None,
    };
    let split = postcard.file_split();
    assert_eq!(split.parts.len(), 1);
    assert_eq!(split.parts[0].field, "front");
    assert_eq!(split.parts[0].filename, "front.pdf");
    assert_eq!(split.parts[0].data, vec![37, 80, 68, 70]);
    assert_eq!(split.inline.len(), 1);
    assert_eq!(split.inline[0].field, "back");
    assert_eq!(split.inline[0].value, "<html>back</html>");
}

#[test]
fn letter_file_split() {
    let letter = NewLetter {
        description: None,
        to: address(),
        from: address(),
        color: true,
        file: FileInput::Url("https://example.com/letter.pdf".to_string()),
        merge_variables: None,
        double_sided: None,
        address_placement: None,
        return_envelope: None,
        custom_envelope: None,
        mail_type: None,
        extra_service: None,
        send_date: None,
        perforated_page: None,
        metadata: None,
    };
    let split = letter.file_split();
    assert!(split.parts.is_empty());
    assert_eq!(split.inline[0].field, "file");
    assert_eq!(split.inline[0].value, "https://example.com/letter.pdf");
}

#[test]
fn file_input_predicates() {
    let f = FileInput::File { filename: "a".to_string(), data: vec![] };
    assert!(f.is_file());
    assert!(!f.is_url());
    assert!(FileInput::Url("u".to_string()).is_url());
    assert!(!FileInput::Html("h".to_string()).is_file());
    assert!(FileInput::is_maybe_file(&Some(f.clone())));
    assert!(!FileInput::is_maybe_file(&None));
    assert!(!FileInput::is_maybe_file(&Some(FileInput::TemplateId("t".to_string()))));
    assert_eq!(f.inline_text(), None);
    assert_eq!(FileInput::TemplateId("t".to_string()).inline_text(), Some("t".to_string()));
}

fn one_pair(k: &str, v: &str) -> StringMap {
    let mut m = StringMap::new();
    m.insert(k.to_string(), v.to_string());
    m
}

fn has(q: &[(String, String)], k: &str, v: &str) -> bool {
    q.iter().any(|(a, b)| a == k && b == v)
}

#[test]
fn list_query_metadata_and_total_count() {
    let options = ListAddressesOptions {
        metadata: Some(one_pair("key", "v")),
        includes: Some(vec![ListIncludeOptions::TotalCount]),
        ..ListAddressesOptions::default()
    };
    let q = options.to_query().unwrap();
    assert!(has(&q, "metadata[key]", "v"));
    assert!(has(&q, "include[]", "total_count"));
    assert_eq!(q.len(), 2);
    assert_eq!(options.to_query().unwrap(), q);
}

#[test]
fn list_query_fields_in_order() {
    let options = ListPostcardOptions {
        limit: Some(-5),
        after: Some("abc".to_string()),
        size: Some(PostcardSize::SixByNine),
        scheduled: Some(false),
        sort_by: Some(SortBy::SendDate(Order::Desc)),
        ..ListPostcardOptions::default()
    };
    let q = options.to_query().unwrap();
    let expected: Vec<(String, String)> = vec![
        ("limit".to_string(), "-5".to_string()),
        ("after".to_string(), "abc".to_string()),
        ("size".to_string(), "6x9".to_string()),
        ("scheduled".to_string(), "false".to_string()),
        ("sort_by[send_date]".to_string(), "desc".to_string()),
    ];
    assert_eq!(q, expected);
    assert!(ListPostcardOptions::default().to_query().unwrap().is_empty());
}

#[test]
fn list_query_date_filter() {
    let options = ListCheckOptions {
        limit: Some(100),
        date_created: Some(DateFilter {
            gt: Some(Timestamp { secs: 0, nanos: 0 }),
            gte: None,
            lt: Some(Timestamp { secs: 1431648000, nanos: 0 }),
            lte: None,
        }),
        ..ListCheckOptions::default()
    };
    let q = options.to_query().unwrap();
    assert_eq!(q[0], ("limit".to_string(), "100".to_string()));
    assert_eq!(q[1], ("date_created[gt]".to_string(), "1970-01-01T00:00:00Z".to_string()));
    assert_eq!(q[2], ("date_created[lt]".to_string(), "2015-05-15T00:00:00Z".to_string()));
    let out_of_range = ListCheckOptions {
        send_date: Some(DateFilter { gt: None, gte: Some(Timestamp { secs: i64::MAX, nanos: 0 }), lt: None, lte: None }),
        ..ListCheckOptions::default()
    };
    let e = out_of_range.to_query().unwrap_err();
    assert!(matches!(e.kind(), ErrorKind::Serialization(_)));
}

#[test]
fn retry_policy() {
    let not_found = Error::remote(LobError { message: "not found".to_string(), status_code: 404 });
    assert!(!not_found.is_retryable());
    let server = Error::from(LobError { message: "oops".to_string(), status_code: 500 });
    assert!(matches!(server.kind(), ErrorKind::Remote(l) if l.status_code == 500 && l.message == "oops"));
    assert!(server.is_retryable());
    assert!(Error::transport(None, "reset".to_string()).is_retryable());
    assert!(!Error::transport(Some(400), "bad".to_string()).is_retryable());
    assert!(Error::transport(Some(503), "busy".to_string()).is_retryable());
    assert!(!Error::bad_request("nope").is_retryable());
    assert!(!Error::serialization("bad json".to_string()).is_retryable());
    assert!(Error::remote(LobError { message: "m".to_string(), status_code: 399 }).is_retryable());
}

#[test]
fn error_text() {
    let stamp = Timestamp { secs: 1431648000, nanos: 0 };
    assert_eq!(stamp.to_text(), Some("2015-05-15T00:00:00Z".to_string()));
    assert_eq!(Timestamp { secs: i64::MAX, nanos: 0 }.to_text(), None);
    let e = Error::remote(LobError { message: "not found".to_string(), status_code: 404 });
    assert_eq!(e.to_text(), "Lob error - status_code: 404, message: not found");
    let e = Error::remote(LobError { message: "odd".to_string(), status_code: -1 });
    assert_eq!(e.to_text(), "Lob error - status_code: -1, message: odd");
    assert_eq!(Error::bad_request("x").to_text(), "Lob error (bad request) - x");
    assert_eq!(Error::transport(None, "t".to_string()).to_text(), "Lob error (transport) - t");
    assert_eq!(Error::serialization("s".to_string()).to_text(), "Lob error (serialization) - s");
    let t = TransportError { status: Some(502), message: "gw".to_string() };
    assert!(Error::transport(t.status, t.message).is_retryable());
}

#[test]
fn endpoints() {
    assert_eq!(API_VERSION, "2020-02-11");
    assert_eq!(Endpoint::Addresses.url(), "https://api.lob.com/v1/addresses");
    assert_eq!(Endpoint::Postcards.item_url("psc_1"), "https://api.lob.com/v1/postcards/psc_1");
    assert_eq!(verify_bank_account_url("bank_9"), "https://api.lob.com/v1/bank_accounts/bank_9/verify");
    assert_eq!(Endpoint::IntlVerifications.url(), "https://api.lob.com/v1/intl_verifications");
    assert!(is_success_status(200));
    assert!(is_success_status(299));
    assert!(!is_success_status(300));
    assert!(!is_success_status(404));
}

#[test]
fn autocomplete_geo_ip_goes_to_header_only() {
    let options = Some(AutocompleteAddressOptions {
        city: Some("Boulder".to_string()),
        state: None,
        geo_ip_sort: Some("2607:a780:b00:1:55ee:4ce7:8819:b8d0".to_string()),
        only_valid_addresses: Some(true),
    });
    let body = AutocompleteAddressOptionsQuery::new("1 s".to_string(), &options);
    assert_eq!(body.address_prefix, "1 s");
    assert_eq!(body.city, Some("Boulder".to_string()));
    assert_eq!(body.geo_ip_sort, Some(true));
    assert_eq!(forwarded_for(&options), Some("2607:a780:b00:1:55ee:4ce7:8819:b8d0".to_string()));
    assert!(valid_addresses_only(&options));
    let plain = AutocompleteAddressOptionsQuery::new("1 s".to_string(), &None);
    assert_eq!(plain.geo_ip_sort, None);
    assert_eq!(forwarded_for(&None), None);
    assert!(!valid_addresses_only(&Some(AutocompleteAddressOptions::default())));
}

#[test]
fn verification_case_query_and_input() {
    let q = VerifyAddressOptions { case: Some(Case::Upper) }.to_query();
    assert_eq!(q, vec![("case".to_string(), "upper".to_string())]);
    assert!(VerifyAddressOptions { case: None }.to_query().is_empty());
    match "1 Main St, Boulder CO".to_string().into_input() {
        AddressVerificationInput::Flat(s) => assert_eq!(s, "1 Main St, Boulder CO"),
        _ => panic!("expected a flat address"),
    }
    let parts = AddressVerificationComponents {
        recipient: Some("Alice Person".to_string()),
        primary_line: "residential highrise".to_string(),
        secondary_line: None,
        urbanization: None,
        city: Some("Boulder".to_string()),
        state: Some("CO".to_string()),
        zip_code: Some("80303".to_string()),
    };
    assert!(matches!(parts.into_input(), AddressVerificationInput::Components(_)));
}

#[test]
fn error_kind_and_from() {
    let e = Error::from(LobError { message: "gone".to_string(), status_code: 410 });
    match e.kind() {
        ErrorKind::Remote(l) => {
            assert_eq!(l.status_code, 410);
            assert_eq!(l.message, "gone");
        }
        other => panic!("expected a remote error, got {:?}", other),
    }
    assert!(!e.is_retryable());
}

#[test]
fn string_map_keeps_keys_unique_and_sorted() {
    let mut m = StringMap::new();
    assert_eq!(m.len(), 0);
    m.insert("b".to_string(), "1".to_string());
    m.insert("a".to_string(), "2".to_string());
    m.insert("b".to_string(), "3".to_string());
    assert_eq!(m.len(), 2);
    assert_eq!(m.entries()[0].0, "a");
    assert_eq!(m.get("b"), Some(&"3".to_string()));
    assert_eq!(m.get("a"), Some(&"2".to_string()));
    assert_eq!(m.get("c"), None);
    m.insert("ab".to_string(), "4".to_string());
    m.insert("B".to_string(), "5".to_string());
    m.insert("é".to_string(), "6".to_string());
    let expected: Vec<(String, String)> = vec![
        ("B".to_string(), "5".to_string()),
        ("a".to_string(), "2".to_string()),
        ("ab".to_string(), "4".to_string()),
        ("b".to_string(), "3".to_string()),
        ("é".to_string(), "6".to_string()),
    ];
    assert_eq!(m.entries(), &expected);
    let options = ListAddressesOptions { metadata: Some(m), ..ListAddressesOptions::default() };
    let q = options.to_query().unwrap();
    assert_eq!(q[0], ("metadata[B]".to_string(), "5".to_string()));
    assert_eq!(q[3], ("metadata[b]".to_string(), "3".to_string()));
}
