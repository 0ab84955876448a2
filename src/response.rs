//! The response-side model: what the service returns for each resource.
//! Server-computed fields (ids, URLs, timestamps, tracking) appear only here,
//! never in the request types. Each shape's literal `object` tag is checked
//! on decoding (see `ObjectTag::check`) and not kept.
use vstd::prelude::*;
use crate::model::{CalendarDate, Timestamp};
use crate::money::CheckAmount;
use crate::strmap::StringMap;
use crate::vocab::{
    AccountType, AddressType, CarrierRouteType, Deliverability, DpvCode, DpvConfirmation, EventTypeId, ExtraService,
    LacsReturnCode, LetterAddressPlacement, MailType, PostcardSize, RecordType, Resource, SuiteReturnCode,
    ZipCodeType,
};

verus! {

/// A saved address.
#[derive(Debug, Clone)]
pub struct Address {
    pub id: String,
    pub description: Option<String>,
    pub name: Option<String>,
    pub company: Option<String>,
    pub phone: Option<String>,
    pub email: Option<String>,
    pub address_line1: String,
    pub address_line2: Option<String>,
    pub address_city: Option<String>,
    pub address_state: Option<String>,
    pub address_zip: Option<String>,
    pub address_country: Option<String>,
    pub metadata: StringMap,
    pub date_created: Timestamp,
    pub date_modified: Timestamp,
    pub deleted: Option<bool>,
}

/// The result of verifying a US address.
#[derive(Debug, Clone)]
pub struct UsVerification {
    pub id: String,
    pub recipient: Option<String>,
    pub primary_line: String,
    pub secondary_line: Option<String>,
    pub urbanization: Option<String>,
    pub last_line: String,
    pub deliverability: Deliverability,
    pub components: VerificationComponents,
    pub deliverability_analysis: DeliverabilityAnalysis,
}

/// The parts of a verified US address.
#[derive(Debug, Clone)]
pub struct VerificationComponents {
    pub primary_number: String,
    pub street_predirection: Option<String>,
    pub street_name: String,
    pub street_suffix: Option<String>,
    pub street_postdirection: Option<String>,
    pub secondary_designator: Option<String>,
    pub secondary_number: Option<String>,
    pub pmb_designator: Option<String>,
    pub pmb_number: Option<String>,
    pub extra_secondary_designator: Option<String>,
    pub extra_secondary_number: Option<String>,
    pub city: String,
    pub state: String,
    pub zip_code: String,
    pub zip_code_plus_4: Option<String>,
    pub zip_code_type: Option<ZipCodeType>,
    pub delivery_point_barcode: Option<String>,
    pub address_type: Option<AddressType>,
    pub record_type: Option<RecordType>,
    pub default_building_address: bool,
    pub county: String,
    pub county_fips: String,
    pub carrier_route: String,
    pub carrier_route_type: Option<CarrierRouteType>,
    /// The latitude, as the decimal text the service sent.
    pub latitude: Option<String>,
    /// The longitude, as the decimal text the service sent.
    pub longitude: Option<String>,
}

/// The postal analysis behind a US verification.
#[derive(Debug, Clone)]
pub struct DeliverabilityAnalysis {
    /// `None` for an undeliverable address.
    pub dpv_confirmation: Option<DpvConfirmation>,
    pub dpv_cmra: Option<bool>,
    pub dpv_vacant: Option<bool>,
    pub dpv_active: Option<bool>,
    pub dpv_footnotes: Vec<DpvCode>,
    pub ews_match: bool,
    pub lacs_indicator: Option<bool>,
    pub lacs_return_code: Option<LacsReturnCode>,
    pub suite_return_code: Option<SuiteReturnCode>,
}

/// Suggested completions of a US address prefix.
#[derive(Debug, Clone)]
pub struct UsAutocompletion {
    pub id: String,
    pub suggestions: Vec<AutocompleteSuggestion>,
}

/// One suggested US address.
#[derive(Debug, Clone)]
pub struct AutocompleteSuggestion {
    pub primary_line: String,
    pub city: String,
    pub state: String,
    pub zip_code: String,
}

/// The cities served by a US ZIP code.
#[derive(Debug, Clone)]
pub struct UsZipLookup {
    pub id: String,
    pub zip_code: String,
    pub zip_code_type: Option<ZipCodeType>,
    pub cities: Vec<City>,
}

/// A city served by a ZIP code.
#[derive(Debug, Clone)]
pub struct City {
    pub city: String,
    pub state: String,
    pub county: String,
    pub county_fips: String,
    pub preferred: bool,
}

/// The result of verifying an international address.
#[derive(Debug, Clone)]
pub struct InternationalVerification {
    pub id: String,
    pub recipient: String,
    pub primary_line: String,
    pub secondary_line: Option<String>,
    pub last_line: String,
    pub country: String,
    pub deliverability: Deliverability,
    pub components: InternationalAddressComponents,
}

/// The parts of a verified international address.
#[derive(Debug, Clone)]
pub struct InternationalAddressComponents {
    pub primary_object: Option<String>,
    pub street_name: Option<String>,
    pub city: Option<String>,
    pub state: Option<String>,
    pub postal_code: Option<String>,
}

/// Rendered previews of one page, in three sizes.
#[derive(Debug, Clone)]
pub struct Thumbnails {
    pub large: String,
    pub medium: String,
    pub small: String,
}

/// A postal tracking event of a mailed piece.
#[derive(Debug, Clone)]
pub struct TrackingEvent {
    pub id: String,
    pub name: String,
    pub location: Option<String>,
    pub time: Timestamp,
    pub date_created: Timestamp,
    pub date_modified: Timestamp,
}

/// A postcard as the service holds it.
#[derive(Debug, Clone)]
pub struct Postcard {
    pub id: String,
    pub description: Option<String>,
    pub metadata: StringMap,
    pub to: Address,
    pub from: Option<Address>,
    pub url: String,
    pub front_template_id: Option<String>,
    pub back_template_id: Option<String>,
    pub front_template_version_id: Option<String>,
    pub back_template_version_id: Option<String>,
    pub carrier: String,
    pub tracking_events: Vec<TrackingEvent>,
    pub thumbnails: Vec<Thumbnails>,
    pub merge_variables: Option<StringMap>,
    pub size: PostcardSize,
    pub mail_type: MailType,
    pub expected_delivery_date: CalendarDate,
    pub date_created: Timestamp,
    pub date_modified: Timestamp,
    pub send_date: Timestamp,
    pub deleted: Option<bool>,
}

/// A custom envelope of a letter.
#[derive(Debug, Clone)]
pub struct CustomEnvelope {
    pub id: String,
    pub url: String,
}

/// A letter as the service holds it.
#[derive(Debug, Clone)]
pub struct Letter {
    pub id: String,
    pub description: Option<String>,
    pub metadata: StringMap,
    pub to: Address,
    pub from: Option<Address>,
    pub color: bool,
    pub double_sided: bool,
    pub address_placement: LetterAddressPlacement,
    pub return_envelope: bool,
    pub perforated_page: Option<i32>,
    pub custom_envelope: Option<CustomEnvelope>,
    pub extra_service: Option<ExtraService>,
    pub mail_type: MailType,
    pub url: String,
    pub merge_variables: Option<StringMap>,
    pub template_id: Option<String>,
    pub template_version_id: Option<String>,
    pub carrier: String,
    pub tracking_number: Option<String>,
    pub tracking_events: Vec<TrackingEvent>,
    pub thumbnails: Vec<Thumbnails>,
    pub expected_delivery_date: CalendarDate,
    pub date_created: Timestamp,
    pub date_modified: Timestamp,
    pub send_date: Timestamp,
    pub deleted: Option<bool>,
}

/// A bank account as the service holds it.
#[derive(Debug, Clone)]
pub struct BankAccount {
    pub id: String,
    pub description: Option<String>,
    pub metadata: StringMap,
    pub routing_number: String,
    pub account_number: String,
    pub account_type: AccountType,
    pub signatory: String,
    pub signature_url: Option<String>,
    pub bank_name: String,
    pub verified: bool,
    pub date_created: Timestamp,
    pub date_modified: Timestamp,
    pub deleted: Option<bool>,
}

/// A check as the service holds it.
#[derive(Debug, Clone)]
pub struct Check {
    pub id: String,
    pub description: Option<String>,
    pub metadata: StringMap,
    pub check_number: i32,
    pub memo: Option<String>,
    pub amount: CheckAmount,
    pub message: Option<String>,
    pub url: String,
    pub check_bottom_template_id: Option<String>,
    pub attachment_template_id: Option<String>,
    pub check_bottom_template_version_id: Option<String>,
    pub attachment_template_version_id: Option<String>,
    pub to: Address,
    pub from: Address,
    pub bank_account: BankAccount,
    pub carrier: String,
    pub tracking_number: Option<String>,
    pub tracking_events: Vec<TrackingEvent>,
    pub thumbnails: Vec<Thumbnails>,
    pub merge_variables: Option<StringMap>,
    pub expected_delivery_date: Timestamp,
    pub mail_type: MailType,
    pub date_created: Timestamp,
    pub date_modified: Timestamp,
    pub send_date: Timestamp,
    pub deleted: Option<bool>,
}

/// The answer to a delete or cancel.
#[derive(Debug, Clone)]
pub struct Delete {
    pub id: String,
    pub deleted: bool,
}

/// A page of a listing.
#[derive(Debug, Clone)]
pub struct ListResponse<T> {
    pub data: Vec<T>,
    pub next_url: Option<String>,
    pub previous_url: Option<String>,
    pub count: u32,
    /// Present only when the total count was asked for.
    pub total_count: Option<u32>,
}

/// The type of an event and the category of resource it is about.
#[derive(Debug, Clone)]
pub struct EventType {
    pub id: EventTypeId,
    pub enabled_for_test: bool,
    pub resource: Resource,
}

/// A webhook event with its body.
#[derive(Debug, Clone)]
pub struct Event {
    pub id: String,
    pub body: Object,
    pub reference_id: String,
    pub event_type: EventType,
    pub date_created: Timestamp,
}

/// The body of an event: one of the resources, or a deletion marker.
#[derive(Debug, Clone)]
pub enum Object {
    Address(Address),
    Postcard(Postcard),
    Letter(Letter),
    Check(Check),
    BankAccount(BankAccount),
    Delete(Delete),
}

} // verus!
