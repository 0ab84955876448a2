//! The closed vocabularies of the wire, each variant with its fixed token.
use vstd::prelude::*;
use vstd::string::*;
use crate::codec::WireText;
use crate::text::str_eq;

verus! {

/// The letter case that verification results are returned in.
#[derive(Debug, Clone, Copy, PartialEq, Eq, Structural)]
pub enum Case {
    Upper,
    Lower,
}

impl Case {
    /// The token of the value on the wire.
    pub fn as_str(&self) -> (r: &'static str)
        ensures
            r@ == self.wire_spec(),
    {
        match self {
            Case::Upper => "upper",
            Case::Lower => "lower",
        }
    }
}

impl WireText for Case {
    open spec fn wire_spec(&self) -> Seq<char> {
        match self {
            Case::Upper => "upper"@,
            Case::Lower => "lower"@,
        }
    }

    fn kind_label() -> &'static str {
        "case"
    }

    fn to_wire(&self) -> (r: String) {
        String::from_str(self.as_str())
    }

    fn from_wire(s: &str) -> (r: Option<Case>) {
        if str_eq(s, "upper") {
            Some(Case::Upper)
        } else if str_eq(s, "lower") {
            Some(Case::Lower)
        } else {
            None
        }
    }
}

/// How deliverable a verified address is.
#[derive(Debug, Clone, Copy, PartialEq, Eq, Structural)]
pub enum Deliverability {
    Deliverable,
    DeliverableUnnecessaryUnit,
    DeliverableIncorrectUnit,
    DeliverableMissingUnit,
    Undeliverable,
}

impl Deliverability {
    /// The token of the value on the wire.
    pub fn as_str(&self) -> (r: &'static str)
        ensures
            r@ == self.wire_spec(),
    {
        match self {
            Deliverability::Deliverable => "deliverable",
            Deliverability::DeliverableUnnecessaryUnit => "deliverable_unnecessary_unit",
            Deliverability::DeliverableIncorrectUnit => "deliverable_incorrect_unit",
            Deliverability::DeliverableMissingUnit => "deliverable_missing_unit",
            Deliverability::Undeliverable => "undeliverable",
        }
    }
}

impl WireText for Deliverability {
    open spec fn wire_spec(&self) -> Seq<char> {
        match self {
            Deliverability::Deliverable => "deliverable"@,
            Deliverability::DeliverableUnnecessaryUnit => "deliverable_unnecessary_unit"@,
            Deliverability::DeliverableIncorrectUnit => "deliverable_incorrect_unit"@,
            Deliverability::DeliverableMissingUnit => "deliverable_missing_unit"@,
            Deliverability::Undeliverable => "undeliverable"@,
        }
    }

    fn kind_label() -> &'static str {
        "deliverability"
    }

    fn to_wire(&self) -> (r: String) {
        String::from_str(self.as_str())
    }

    fn from_wire(s: &str) -> (r: Option<Deliverability>) {
        if str_eq(s, "deliverable") {
            Some(Deliverability::Deliverable)
        } else if str_eq(s, "deliverable_unnecessary_unit") {
            Some(Deliverability::DeliverableUnnecessaryUnit)
        } else if str_eq(s, "deliverable_incorrect_unit") {
            Some(Deliverability::DeliverableIncorrectUnit)
        } else if str_eq(s, "deliverable_missing_unit") {
            Some(Deliverability::DeliverableMissingUnit)
        } else if str_eq(s, "undeliverable") {
            Some(Deliverability::Undeliverable)
        } else {
            None
        }
    }
}

/// The kind of a ZIP code.
#[derive(Debug, Clone, Copy, PartialEq, Eq, Structural)]
pub enum ZipCodeType {
    Standard,
    Military,
    Unique,
    PoBox,
}

impl ZipCodeType {
    /// The token of the value on the wire.
    pub fn as_str(&self) -> (r: &'static str)
        ensures
            r@ == self.wire_spec(),
    {
        match self {
            ZipCodeType::Standard => "standard",
            ZipCodeType::Military => "military",
            ZipCodeType::Unique => "unique",
            ZipCodeType::PoBox => "po_box",
        }
    }
}

impl WireText for ZipCodeType {
    open spec fn wire_spec(&self) -> Seq<char> {
        match self {
            ZipCodeType::Standard => "standard"@,
            ZipCodeType::Military => "military"@,
            ZipCodeType::Unique => "unique"@,
            ZipCodeType::PoBox => "po_box"@,
        }
    }

    fn kind_label() -> &'static str {
        "zip_code_type"
    }

    fn to_wire(&self) -> (r: String) {
        String::from_str(self.as_str())
    }

    fn from_wire(s: &str) -> (r: Option<ZipCodeType>) {
        if str_eq(s, "standard") {
            Some(ZipCodeType::Standard)
        } else if str_eq(s, "military") {
            Some(ZipCodeType::Military)
        } else if str_eq(s, "unique") {
            Some(ZipCodeType::Unique)
        } else if str_eq(s, "po_box") {
            Some(ZipCodeType::PoBox)
        } else {
            None
        }
    }
}

/// Whether an address is residential or commercial.
#[derive(Debug, Clone, Copy, PartialEq, Eq, Structural)]
pub enum AddressType {
    Residential,
    Commercial,
}

impl AddressType {
    /// The token of the value on the wire.
    pub fn as_str(&self) -> (r: &'static str)
        ensures
            r@ == self.wire_spec(),
    {
        match self {
            AddressType::Residential => "residential",
            AddressType::Commercial => "commercial",
        }
    }
}

impl WireText for AddressType {
    open spec fn wire_spec(&self) -> Seq<char> {
        match self {
            AddressType::Residential => "residential"@,
            AddressType::Commercial => "commercial"@,
        }
    }

    fn kind_label() -> &'static str {
        "address_type"
    }

    fn to_wire(&self) -> (r: String) {
        String::from_str(self.as_str())
    }

    fn from_wire(s: &str) -> (r: Option<AddressType>) {
        if str_eq(s, "residential") {
            Some(AddressType::Residential)
        } else if str_eq(s, "commercial") {
            Some(AddressType::Commercial)
        } else {
            None
        }
    }
}

/// The kind of postal record an address matched.
#[derive(Debug, Clone, Copy, PartialEq, Eq, Structural)]
pub enum RecordType {
    Street,
    Highrise,
    Firm,
    PoBox,
    RuralRoute,
}

impl RecordType {
    /// The token of the value on the wire.
    pub fn as_str(&self) -> (r: &'static str)
        ensures
            r@ == self.wire_spec(),
    {
        match self {
            RecordType::Street => "street",
            RecordType::Highrise => "highrise",
            RecordType::Firm => "firm",
            RecordType::PoBox => "po_box",
            RecordType::RuralRoute => "rural_route",
        }
    }
}

impl WireText for RecordType {
    open spec fn wire_spec(&self) -> Seq<char> {
        match self {
            RecordType::Street => "street"@,
            RecordType::Highrise => "highrise"@,
            RecordType::Firm => "firm"@,
            RecordType::PoBox => "po_box"@,
            RecordType::RuralRoute => "rural_route"@,
        }
    }

    fn kind_label() -> &'static str {
        "record_type"
    }

    fn to_wire(&self) -> (r: String) {
        String::from_str(self.as_str())
    }

    fn from_wire(s: &str) -> (r: Option<RecordType>) {
        if str_eq(s, "street") {
            Some(RecordType::Street)
        } else if str_eq(s, "highrise") {
            Some(RecordType::Highrise)
        } else if str_eq(s, "firm") {
            Some(RecordType::Firm)
        } else if str_eq(s, "po_box") {
            Some(RecordType::PoBox)
        } else if str_eq(s, "rural_route") {
            Some(RecordType::RuralRoute)
        } else {
            None
        }
    }
}

/// The kind of carrier route serving an address.
#[derive(Debug, Clone, Copy, PartialEq, Eq, Structural)]
pub enum CarrierRouteType {
    CityDelivery,
    RuralRoute,
    HighwayContract,
    PoBox,
    GeneralDelivery,
    /// Not in the published vocabulary, but returned by the service.
    Contract,
}

impl CarrierRouteType {
    /// The token of the value on the wire.
    pub fn as_str(&self) -> (r: &'static str)
        ensures
            r@ == self.wire_spec(),
    {
        match self {
            CarrierRouteType::CityDelivery => "city_delivery",
            CarrierRouteType::RuralRoute => "rural_route",
            CarrierRouteType::HighwayContract => "highway_contract",
            CarrierRouteType::PoBox => "po_box",
            CarrierRouteType::GeneralDelivery => "general_delivery",
            CarrierRouteType::Contract => "contract",
        }
    }
}

impl WireText for CarrierRouteType {
    open spec fn wire_spec(&self) -> Seq<char> {
        match self {
            CarrierRouteType::CityDelivery => "city_delivery"@,
            CarrierRouteType::RuralRoute => "rural_route"@,
            CarrierRouteType::HighwayContract => "highway_contract"@,
            CarrierRouteType::PoBox => "po_box"@,
            CarrierRouteType::GeneralDelivery => "general_delivery"@,
            CarrierRouteType::Contract => "contract"@,
        }
    }

    fn kind_label() -> &'static str {
        "carrier_route_type"
    }

    fn to_wire(&self) -> (r: String) {
        String::from_str(self.as_str())
    }

    fn from_wire(s: &str) -> (r: Option<CarrierRouteType>) {
        if str_eq(s, "city_delivery") {
            Some(CarrierRouteType::CityDelivery)
        } else if str_eq(s, "rural_route") {
            Some(CarrierRouteType::RuralRoute)
        } else if str_eq(s, "highway_contract") {
            Some(CarrierRouteType::HighwayContract)
        } else if str_eq(s, "po_box") {
            Some(CarrierRouteType::PoBox)
        } else if str_eq(s, "general_delivery") {
            Some(CarrierRouteType::GeneralDelivery)
        } else if str_eq(s, "contract") {
            Some(CarrierRouteType::Contract)
        } else {
            None
        }
    }
}

/// The result of delivery point validation.
#[derive(Debug, Clone, Copy, PartialEq, Eq, Structural)]
pub enum DpvConfirmation {
    /// The address is deliverable.
    Y,
    /// The address is deliverable by removing the provided secondary unit designator.
    S,
    /// The address is deliverable to the building's default address but is missing a secondary unit designator or number.
    D,
    /// The address is not deliverable, but parts of it (such as the street and ZIP code) are valid.
    N,
}

impl DpvConfirmation {
    /// The token of the value on the wire.
    pub fn as_str(&self) -> (r: &'static str)
        ensures
            r@ == self.wire_spec(),
    {
        match self {
            DpvConfirmation::Y => "Y",
            DpvConfirmation::S => "S",
            DpvConfirmation::D => "D",
            DpvConfirmation::N => "N",
        }
    }
}

impl WireText for DpvConfirmation {
    open spec fn wire_spec(&self) -> Seq<char> {
        match self {
            DpvConfirmation::Y => "Y"@,
            DpvConfirmation::S => "S"@,
            DpvConfirmation::D => "D"@,
            DpvConfirmation::N => "N"@,
        }
    }

    fn kind_label() -> &'static str {
        "dpv_confirmation"
    }

    fn to_wire(&self) -> (r: String) {
        String::from_str(self.as_str())
    }

    fn from_wire(s: &str) -> (r: Option<DpvConfirmation>) {
        if str_eq(s, "Y") {
            Some(DpvConfirmation::Y)
        } else if str_eq(s, "S") {
            Some(DpvConfirmation::S)
        } else if str_eq(s, "D") {
            Some(DpvConfirmation::D)
        } else if str_eq(s, "N") {
            Some(DpvConfirmation::N)
        } else {
            None
        }
    }
}

/// A footnote of delivery point validation.
#[derive(Debug, Clone, Copy, PartialEq, Eq, Structural)]
pub enum DpvCode {
    /// Some parts of the address (such as the street and ZIP code) are valid.
    AA,
    /// The address is invalid based on given inputs.
    A1,
    /// The address is deliverable.
    BB,
    /// The address is deliverable by removing the provided secondary unit designator.
    CC,
    /// The address is deliverable but is missing secondary information (apartment, unit, etc).
    N1,
    /// The address is a deliverable military address.
    F1,
    /// The address is a deliverable General Delivery address.
    G1,
    /// The address is a deliverable unique address.
    U1,
    /// The primary number is missing.
    M1,
    /// The primary number is invalid.
    M3,
    /// A PO Box, Rural Route, or Highway Contract box number is missing.
    P1,
    /// A PO Box, Rural Route, or Highway Contract box number is invalid.
    P3,
    /// The address matched a CMRA and private mailbox information is not present.
    R1,
    /// The address matched a phantom carrier route, not eligible for delivery.
    R7,
    /// The address matched a CMRA and private mailbox information is present.
    RR,
}

impl DpvCode {
    /// The token of the value on the wire.
    pub fn as_str(&self) -> (r: &'static str)
        ensures
            r@ == self.wire_spec(),
    {
        match self {
            DpvCode::AA => "AA",
            DpvCode::A1 => "A1",
            DpvCode::BB => "BB",
            DpvCode::CC => "CC",
            DpvCode::N1 => "N1",
            DpvCode::F1 => "F1",
            DpvCode::G1 => "G1",
            DpvCode::U1 => "U1",
            DpvCode::M1 => "M1",
            DpvCode::M3 => "M3",
            DpvCode::P1 => "P1",
            DpvCode::P3 => "P3",
            DpvCode::R1 => "R1",
            DpvCode::R7 => "R7",
            DpvCode::RR => "RR",
        }
    }
}

impl WireText for DpvCode {
    open spec fn wire_spec(&self) -> Seq<char> {
        match self {
            DpvCode::AA => "AA"@,
            DpvCode::A1 => "A1"@,
            DpvCode::BB => "BB"@,
            DpvCode::CC => "CC"@,
            DpvCode::N1 => "N1"@,
            DpvCode::F1 => "F1"@,
            DpvCode::G1 => "G1"@,
            DpvCode::U1 => "U1"@,
            DpvCode::M1 => "M1"@,
            DpvCode::M3 => "M3"@,
            DpvCode::P1 => "P1"@,
            DpvCode::P3 => "P3"@,
            DpvCode::R1 => "R1"@,
            DpvCode::R7 => "R7"@,
            DpvCode::RR => "RR"@,
        }
    }

    fn kind_label() -> &'static str {
        "dpv_code"
    }

    fn to_wire(&self) -> (r: String) {
        String::from_str(self.as_str())
    }

    fn from_wire(s: &str) -> (r: Option<DpvCode>) {
        if str_eq(s, "AA") {
            Some(DpvCode::AA)
        } else if str_eq(s, "A1") {
            Some(DpvCode::A1)
        } else if str_eq(s, "BB") {
            Some(DpvCode::BB)
        } else if str_eq(s, "CC") {
            Some(DpvCode::CC)
        } else if str_eq(s, "N1") {
            Some(DpvCode::N1)
        } else if str_eq(s, "F1") {
            Some(DpvCode::F1)
        } else if str_eq(s, "G1") {
            Some(DpvCode::G1)
        } else if str_eq(s, "U1") {
            Some(DpvCode::U1)
        } else if str_eq(s, "M1") {
            Some(DpvCode::M1)
        } else if str_eq(s, "M3") {
            Some(DpvCode::M3)
        } else if str_eq(s, "P1") {
            Some(DpvCode::P1)
        } else if str_eq(s, "P3") {
            Some(DpvCode::P3)
        } else if str_eq(s, "R1") {
            Some(DpvCode::R1)
        } else if str_eq(s, "R7") {
            Some(DpvCode::R7)
        } else if str_eq(s, "RR") {
            Some(DpvCode::RR)
        } else {
            None
        }
    }
}

/// The result of a LACSLink lookup.
#[derive(Debug, Clone, Copy, PartialEq, Eq, Structural)]
pub enum LacsReturnCode {
    /// A new address was produced because a match was found in LACSLink.
    A,
    /// A LACSLink record was matched after dropping secondary information.
    _92,
    /// A match was found in LACSLink, but could not be converted to a deliverable address.
    _14,
    /// A match was not found in LACSLink, and no new address was produced.
    _00,
}

impl LacsReturnCode {
    /// The token of the value on the wire.
    pub fn as_str(&self) -> (r: &'static str)
        ensures
            r@ == self.wire_spec(),
    {
        match self {
            LacsReturnCode::A => "A",
            LacsReturnCode::_92 => "92",
            LacsReturnCode::_14 => "14",
            LacsReturnCode::_00 => "00",
        }
    }
}

impl WireText for LacsReturnCode {
    open spec fn wire_spec(&self) -> Seq<char> {
        match self {
            LacsReturnCode::A => "A"@,
            LacsReturnCode::_92 => "92"@,
            LacsReturnCode::_14 => "14"@,
            LacsReturnCode::_00 => "00"@,
        }
    }

    fn kind_label() -> &'static str {
        "lacs_return_code"
    }

    fn to_wire(&self) -> (r: String) {
        String::from_str(self.as_str())
    }

    fn from_wire(s: &str) -> (r: Option<LacsReturnCode>) {
        if str_eq(s, "A") {
            Some(LacsReturnCode::A)
        } else if str_eq(s, "92") {
            Some(LacsReturnCode::_92)
        } else if str_eq(s, "14") {
            Some(LacsReturnCode::_14)
        } else if str_eq(s, "00") {
            Some(LacsReturnCode::_00)
        } else {
            None
        }
    }
}

/// The result of a SuiteLink lookup.
#[derive(Debug, Clone, Copy, PartialEq, Eq, Structural)]
pub enum SuiteReturnCode {
    /// A SuiteLink match was found and secondary information was added.
    A,
    /// A SuiteLink match could not be found and no secondary information was added.
    _00,
}

impl SuiteReturnCode {
    /// The token of the value on the wire.
    pub fn as_str(&self) -> (r: &'static str)
        ensures
            r@ == self.wire_spec(),
    {
        match self {
            SuiteReturnCode::A => "A",
            SuiteReturnCode::_00 => "00",
        }
    }
}

impl WireText for SuiteReturnCode {
    open spec fn wire_spec(&self) -> Seq<char> {
        match self {
            SuiteReturnCode::A => "A"@,
            SuiteReturnCode::_00 => "00"@,
        }
    }

    fn kind_label() -> &'static str {
        "suite_return_code"
    }

    fn to_wire(&self) -> (r: String) {
        String::from_str(self.as_str())
    }

    fn from_wire(s: &str) -> (r: Option<SuiteReturnCode>) {
        if str_eq(s, "A") {
            Some(SuiteReturnCode::A)
        } else if str_eq(s, "00") {
            Some(SuiteReturnCode::_00)
        } else {
            None
        }
    }
}

/// A sort direction.
#[derive(Debug, Clone, Copy, PartialEq, Eq, Structural)]
pub enum Order {
    Asc,
    Desc,
}

impl Order {
    /// The token of the value on the wire.
    pub fn as_str(&self) -> (r: &'static str)
        ensures
            r@ == self.wire_spec(),
    {
        match self {
            Order::Asc => "asc",
            Order::Desc => "desc",
        }
    }
}

impl WireText for Order {
    open spec fn wire_spec(&self) -> Seq<char> {
        match self {
            Order::Asc => "asc"@,
            Order::Desc => "desc"@,
        }
    }

    fn kind_label() -> &'static str {
        "order"
    }

    fn to_wire(&self) -> (r: String) {
        String::from_str(self.as_str())
    }

    fn from_wire(s: &str) -> (r: Option<Order>) {
        if str_eq(s, "asc") {
            Some(Order::Asc)
        } else if str_eq(s, "desc") {
            Some(Order::Desc)
        } else {
            None
        }
    }
}

/// A category of resource that events are about.
#[derive(Debug, Clone, Copy, PartialEq, Eq, Structural)]
pub enum Resource {
    Postcards,
    Letters,
    Checks,
    Addresses,
    BankAccounts,
}

impl Resource {
    /// The token of the value on the wire.
    pub fn as_str(&self) -> (r: &'static str)
        ensures
            r@ == self.wire_spec(),
    {
        match self {
            Resource::Postcards => "postcards",
            Resource::Letters => "letters",
            Resource::Checks => "checks",
            Resource::Addresses => "addresses",
            Resource::BankAccounts => "bank_accounts",
        }
    }
}

impl WireText for Resource {
    open spec fn wire_spec(&self) -> Seq<char> {
        match self {
            Resource::Postcards => "postcards"@,
            Resource::Letters => "letters"@,
            Resource::Checks => "checks"@,
            Resource::Addresses => "addresses"@,
            Resource::BankAccounts => "bank_accounts"@,
        }
    }

    fn kind_label() -> &'static str {
        "resource"
    }

    fn to_wire(&self) -> (r: String) {
        String::from_str(self.as_str())
    }

    fn from_wire(s: &str) -> (r: Option<Resource>) {
        if str_eq(s, "postcards") {
            Some(Resource::Postcards)
        } else if str_eq(s, "letters") {
            Some(Resource::Letters)
        } else if str_eq(s, "checks") {
            Some(Resource::Checks)
        } else if str_eq(s, "addresses") {
            Some(Resource::Addresses)
        } else if str_eq(s, "bank_accounts") {
            Some(Resource::BankAccounts)
        } else {
            None
        }
    }
}

/// The size of a postcard, in inches.
#[derive(Debug, Clone, Copy, PartialEq, Eq, Structural)]
pub enum PostcardSize {
    FourBySix,
    SixByNine,
    SixByEleven,
}

impl PostcardSize {
    /// The token of the value on the wire.
    pub fn as_str(&self) -> (r: &'static str)
        ensures
            r@ == self.wire_spec(),
    {
        match self {
            PostcardSize::FourBySix => "4x6",
            PostcardSize::SixByNine => "6x9",
            PostcardSize::SixByEleven => "6x11",
        }
    }
}

impl WireText for PostcardSize {
    open spec fn wire_spec(&self) -> Seq<char> {
        match self {
            PostcardSize::FourBySix => "4x6"@,
            PostcardSize::SixByNine => "6x9"@,
            PostcardSize::SixByEleven => "6x11"@,
        }
    }

    fn kind_label() -> &'static str {
        "postcard_size"
    }

    fn to_wire(&self) -> (r: String) {
        String::from_str(self.as_str())
    }

    fn from_wire(s: &str) -> (r: Option<PostcardSize>) {
        if str_eq(s, "4x6") {
            Some(PostcardSize::FourBySix)
        } else if str_eq(s, "6x9") {
            Some(PostcardSize::SixByNine)
        } else if str_eq(s, "6x11") {
            Some(PostcardSize::SixByEleven)
        } else {
            None
        }
    }
}

/// The postal class a piece is sent with.
#[derive(Debug, Clone, Copy, PartialEq, Eq, Structural)]
pub enum MailType {
    UspsFirstClass,
    UspsStandard,
    UpsNextDayAir,
}

impl MailType {
    /// The token of the value on the wire.
    pub fn as_str(&self) -> (r: &'static str)
        ensures
            r@ == self.wire_spec(),
    {
        match self {
            MailType::UspsFirstClass => "usps_first_class",
            MailType::UspsStandard => "usps_standard",
            MailType::UpsNextDayAir => "ups_next_day_air",
        }
    }
}

impl WireText for MailType {
    open spec fn wire_spec(&self) -> Seq<char> {
        match self {
            MailType::UspsFirstClass => "usps_first_class"@,
            MailType::UspsStandard => "usps_standard"@,
            MailType::UpsNextDayAir => "ups_next_day_air"@,
        }
    }

    fn kind_label() -> &'static str {
        "mail_type"
    }

    fn to_wire(&self) -> (r: String) {
        String::from_str(self.as_str())
    }

    fn from_wire(s: &str) -> (r: Option<MailType>) {
        if str_eq(s, "usps_first_class") {
            Some(MailType::UspsFirstClass)
        } else if str_eq(s, "usps_standard") {
            Some(MailType::UspsStandard)
        } else if str_eq(s, "ups_next_day_air") {
            Some(MailType::UpsNextDayAir)
        } else {
            None
        }
    }
}

/// Where a letter's address is printed.
#[derive(Debug, Clone, Copy, PartialEq, Eq, Structural)]
pub enum LetterAddressPlacement {
    TopFirstPage,
    InsertBlankPage,
}

impl LetterAddressPlacement {
    /// The token of the value on the wire.
    pub fn as_str(&self) -> (r: &'static str)
        ensures
            r@ == self.wire_spec(),
    {
        match self {
            LetterAddressPlacement::TopFirstPage => "top_first_page",
            LetterAddressPlacement::InsertBlankPage => "insert_blank_page",
        }
    }
}

impl WireText for LetterAddressPlacement {
    open spec fn wire_spec(&self) -> Seq<char> {
        match self {
            LetterAddressPlacement::TopFirstPage => "top_first_page"@,
            LetterAddressPlacement::InsertBlankPage => "insert_blank_page"@,
        }
    }

    fn kind_label() -> &'static str {
        "letter_address_placement"
    }

    fn to_wire(&self) -> (r: String) {
        String::from_str(self.as_str())
    }

    fn from_wire(s: &str) -> (r: Option<LetterAddressPlacement>) {
        if str_eq(s, "top_first_page") {
            Some(LetterAddressPlacement::TopFirstPage)
        } else if str_eq(s, "insert_blank_page") {
            Some(LetterAddressPlacement::InsertBlankPage)
        } else {
            None
        }
    }
}

/// An extra postal service for a letter.
#[derive(Debug, Clone, Copy, PartialEq, Eq, Structural)]
pub enum ExtraService {
    Certified,
    CertifiedReturnReceipt,
    Registered,
}

impl ExtraService {
    /// The token of the value on the wire.
    pub fn as_str(&self) -> (r: &'static str)
        ensures
            r@ == self.wire_spec(),
    {
        match self {
            ExtraService::Certified => "certified",
            ExtraService::CertifiedReturnReceipt => "certified_return_receipt",
            ExtraService::Registered => "registered",
        }
    }
}

impl WireText for ExtraService {
    open spec fn wire_spec(&self) -> Seq<char> {
        match self {
            ExtraService::Certified => "certified"@,
            ExtraService::CertifiedReturnReceipt => "certified_return_receipt"@,
            ExtraService::Registered => "registered"@,
        }
    }

    fn kind_label() -> &'static str {
        "extra_service"
    }

    fn to_wire(&self) -> (r: String) {
        String::from_str(self.as_str())
    }

    fn from_wire(s: &str) -> (r: Option<ExtraService>) {
        if str_eq(s, "certified") {
            Some(ExtraService::Certified)
        } else if str_eq(s, "certified_return_receipt") {
            Some(ExtraService::CertifiedReturnReceipt)
        } else if str_eq(s, "registered") {
            Some(ExtraService::Registered)
        } else {
            None
        }
    }
}

/// The holder kind of a bank account.
#[derive(Debug, Clone, Copy, PartialEq, Eq, Structural)]
pub enum AccountType {
    Company,
    Individual,
}

impl AccountType {
    /// The token of the value on the wire.
    pub fn as_str(&self) -> (r: &'static str)
        ensures
            r@ == self.wire_spec(),
    {
        match self {
            AccountType::Company => "company",
            AccountType::Individual => "individual",
        }
    }
}

impl WireText for AccountType {
    open spec fn wire_spec(&self) -> Seq<char> {
        match self {
            AccountType::Company => "company"@,
            AccountType::Individual => "individual"@,
        }
    }

    fn kind_label() -> &'static str {
        "account_type"
    }

    fn to_wire(&self) -> (r: String) {
        String::from_str(self.as_str())
    }

    fn from_wire(s: &str) -> (r: Option<AccountType>) {
        if str_eq(s, "company") {
            Some(AccountType::Company)
        } else if str_eq(s, "individual") {
            Some(AccountType::Individual)
        } else {
            None
        }
    }
}

/// Extra data a list response can be asked to include.
#[derive(Debug, Clone, Copy, PartialEq, Eq, Structural)]
pub enum ListIncludeOptions {
    TotalCount,
}

impl ListIncludeOptions {
    /// The token of the value on the wire.
    pub fn as_str(&self) -> (r: &'static str)
        ensures
            r@ == self.wire_spec(),
    {
        match self {
            ListIncludeOptions::TotalCount => "total_count",
        }
    }
}

impl WireText for ListIncludeOptions {
    open spec fn wire_spec(&self) -> Seq<char> {
        match self {
            ListIncludeOptions::TotalCount => "total_count"@,
        }
    }

    fn kind_label() -> &'static str {
        "list_include_options"
    }

    fn to_wire(&self) -> (r: String) {
        String::from_str(self.as_str())
    }

    fn from_wire(s: &str) -> (r: Option<ListIncludeOptions>) {
        if str_eq(s, "total_count") {
            Some(ListIncludeOptions::TotalCount)
        } else {
            None
        }
    }
}

/// The type of an event, named `resource.action` on the wire.
#[derive(Debug, Clone, Copy, PartialEq, Eq, Structural)]
pub enum EventTypeId {
    PostcardCreated,
    PostcardRenderedPdf,
    PostcardRenderedThumbnails,
    PostcardDeleted,
    PostcardMailed,
    PostcardInTransit,
    PostcardInLocalArea,
    PostcardProcessedForDelivery,
    PostcardReRouted,
    PostcardReturnedToSender,
    LetterCreated,
    LetterRenderedPdf,
    LetterRenderedThumbnails,
    LetterDeleted,
    LetterMailed,
    LetterInTransit,
    LetterInLocalArea,
    LetterProcessedForDelivery,
    LetterReRouted,
    LetterReturnedToSender,
    CheckCreated,
    CheckRenderedPdf,
    CheckRenderedThumbnails,
    CheckDeleted,
    CheckInTransit,
    CheckInLocalArea,
    CheckProcessedForDelivery,
    CheckReRouted,
    CheckReturnedToSender,
    AddressCreated,
    AddressDeleted,
    BankAccountCreated,
    BankAccountDeleted,
    BankAccountVerified,
}

impl EventTypeId {
    /// The token of the value on the wire.
    pub fn as_str(&self) -> (r: &'static str)
        ensures
            r@ == self.wire_spec(),
    {
        match self {
            EventTypeId::PostcardCreated => "postcard.created",
            EventTypeId::PostcardRenderedPdf => "postcard.rendered_pdf",
            EventTypeId::PostcardRenderedThumbnails => "postcard.rendered_thumbnails",
            EventTypeId::PostcardDeleted => "postcard.deleted",
            EventTypeId::PostcardMailed => "postcard.mailed",
            EventTypeId::PostcardInTransit => "postcard.in_transit",
            EventTypeId::PostcardInLocalArea => "postcard.in_local_area",
            EventTypeId::PostcardProcessedForDelivery => "postcard.processed_for_delivery",
            EventTypeId::PostcardReRouted => "postcard.re-routed",
            EventTypeId::PostcardReturnedToSender => "postcard.returned_to_sender",
            EventTypeId::LetterCreated => "letter.created",
            EventTypeId::LetterRenderedPdf => "letter.rendered_pdf",
            EventTypeId::LetterRenderedThumbnails => "letter.rendered_thumbnails",
            EventTypeId::LetterDeleted => "letter.deleted",
            EventTypeId::LetterMailed => "letter.mailed",
            EventTypeId::LetterInTransit => "letter.in_transit",
            EventTypeId::LetterInLocalArea => "letter.in_local_area",
            EventTypeId::LetterProcessedForDelivery => "letter.processed_for_delivery",
            EventTypeId::LetterReRouted => "letter.re-routed",
            EventTypeId::LetterReturnedToSender => "letter.returned_to_sender",
            EventTypeId::CheckCreated => "check.created",
            EventTypeId::CheckRenderedPdf => "check.rendered_pdf",
            EventTypeId::CheckRenderedThumbnails => "check.rendered_thumbnails",
            EventTypeId::CheckDeleted => "check.deleted",
            EventTypeId::CheckInTransit => "check.in_transit",
            EventTypeId::CheckInLocalArea => "check.in_local_area",
            EventTypeId::CheckProcessedForDelivery => "check.processed_for_delivery",
            EventTypeId::CheckReRouted => "check.re-routed",
            EventTypeId::CheckReturnedToSender => "check.returned_to_sender",
            EventTypeId::AddressCreated => "address.created",
            EventTypeId::AddressDeleted => "address.deleted",
            EventTypeId::BankAccountCreated => "bank_account.created",
            EventTypeId::BankAccountDeleted => "bank_account.deleted",
            EventTypeId::BankAccountVerified => "bank_account.verified",
        }
    }
}

impl WireText for EventTypeId {
    open spec fn wire_spec(&self) -> Seq<char> {
        match self {
            EventTypeId::PostcardCreated => "postcard.created"@,
            EventTypeId::PostcardRenderedPdf => "postcard.rendered_pdf"@,
            EventTypeId::PostcardRenderedThumbnails => "postcard.rendered_thumbnails"@,
            EventTypeId::PostcardDeleted => "postcard.deleted"@,
            EventTypeId::PostcardMailed => "postcard.mailed"@,
            EventTypeId::PostcardInTransit => "postcard.in_transit"@,
            EventTypeId::PostcardInLocalArea => "postcard.in_local_area"@,
            EventTypeId::PostcardProcessedForDelivery => "postcard.processed_for_delivery"@,
            EventTypeId::PostcardReRouted => "postcard.re-routed"@,
            EventTypeId::PostcardReturnedToSender => "postcard.returned_to_sender"@,
            EventTypeId::LetterCreated => "letter.created"@,
            EventTypeId::LetterRenderedPdf => "letter.rendered_pdf"@,
            EventTypeId::LetterRenderedThumbnails => "letter.rendered_thumbnails"@,
            EventTypeId::LetterDeleted => "letter.deleted"@,
            EventTypeId::LetterMailed => "letter.mailed"@,
            EventTypeId::LetterInTransit => "letter.in_transit"@,
            EventTypeId::LetterInLocalArea => "letter.in_local_area"@,
            EventTypeId::LetterProcessedForDelivery => "letter.processed_for_delivery"@,
            EventTypeId::LetterReRouted => "letter.re-routed"@,
            EventTypeId::LetterReturnedToSender => "letter.returned_to_sender"@,
            EventTypeId::CheckCreated => "check.created"@,
            EventTypeId::CheckRenderedPdf => "check.rendered_pdf"@,
            EventTypeId::CheckRenderedThumbnails => "check.rendered_thumbnails"@,
            EventTypeId::CheckDeleted => "check.deleted"@,
            EventTypeId::CheckInTransit => "check.in_transit"@,
            EventTypeId::CheckInLocalArea => "check.in_local_area"@,
            EventTypeId::CheckProcessedForDelivery => "check.processed_for_delivery"@,
            EventTypeId::CheckReRouted => "check.re-routed"@,
            EventTypeId::CheckReturnedToSender => "check.returned_to_sender"@,
            EventTypeId::AddressCreated => "address.created"@,
            EventTypeId::AddressDeleted => "address.deleted"@,
            EventTypeId::BankAccountCreated => "bank_account.created"@,
            EventTypeId::BankAccountDeleted => "bank_account.deleted"@,
            EventTypeId::BankAccountVerified => "bank_account.verified"@,
        }
    }

    fn kind_label() -> &'static str {
        "event_type_id"
    }

    fn to_wire(&self) -> (r: String) {
        String::from_str(self.as_str())
    }

    fn from_wire(s: &str) -> (r: Option<EventTypeId>) {
        if str_eq(s, "postcard.created") {
            Some(EventTypeId::PostcardCreated)
        } else if str_eq(s, "postcard.rendered_pdf") {
            Some(EventTypeId::PostcardRenderedPdf)
        } else if str_eq(s, "postcard.rendered_thumbnails") {
            Some(EventTypeId::PostcardRenderedThumbnails)
        } else if str_eq(s, "postcard.deleted") {
            Some(EventTypeId::PostcardDeleted)
        } else if str_eq(s, "postcard.mailed") {
            Some(EventTypeId::PostcardMailed)
        } else if str_eq(s, "postcard.in_transit") {
            Some(EventTypeId::PostcardInTransit)
        } else if str_eq(s, "postcard.in_local_area") {
            Some(EventTypeId::PostcardInLocalArea)
        } else if str_eq(s, "postcard.processed_for_delivery") {
            Some(EventTypeId::PostcardProcessedForDelivery)
        } else if str_eq(s, "postcard.re-routed") {
            Some(EventTypeId::PostcardReRouted)
        } else if str_eq(s, "postcard.returned_to_sender") {
            Some(EventTypeId::PostcardReturnedToSender)
        } else if str_eq(s, "letter.created") {
            Some(EventTypeId::LetterCreated)
        } else if str_eq(s, "letter.rendered_pdf") {
            Some(EventTypeId::LetterRenderedPdf)
        } else if str_eq(s, "letter.rendered_thumbnails") {
            Some(EventTypeId::LetterRenderedThumbnails)
        } else if str_eq(s, "letter.deleted") {
            Some(EventTypeId::LetterDeleted)
        } else if str_eq(s, "letter.mailed") {
            Some(EventTypeId::LetterMailed)
        } else if str_eq(s, "letter.in_transit") {
            Some(EventTypeId::LetterInTransit)
        } else if str_eq(s, "letter.in_local_area") {
            Some(EventTypeId::LetterInLocalArea)
        } else if str_eq(s, "letter.processed_for_delivery") {
            Some(EventTypeId::LetterProcessedForDelivery)
        } else if str_eq(s, "letter.re-routed") {
            Some(EventTypeId::LetterReRouted)
        } else if str_eq(s, "letter.returned_to_sender") {
            Some(EventTypeId::LetterReturnedToSender)
        } else if str_eq(s, "check.created") {
            Some(EventTypeId::CheckCreated)
        } else if str_eq(s, "check.rendered_pdf") {
            Some(EventTypeId::CheckRenderedPdf)
        } else if str_eq(s, "check.rendered_thumbnails") {
            Some(EventTypeId::CheckRenderedThumbnails)
        } else if str_eq(s, "check.deleted") {
            Some(EventTypeId::CheckDeleted)
        } else if str_eq(s, "check.in_transit") {
            Some(EventTypeId::CheckInTransit)
        } else if str_eq(s, "check.in_local_area") {
            Some(EventTypeId::CheckInLocalArea)
        } else if str_eq(s, "check.processed_for_delivery") {
            Some(EventTypeId::CheckProcessedForDelivery)
        } else if str_eq(s, "check.re-routed") {
            Some(EventTypeId::CheckReRouted)
        } else if str_eq(s, "check.returned_to_sender") {
            Some(EventTypeId::CheckReturnedToSender)
        } else if str_eq(s, "address.created") {
            Some(EventTypeId::AddressCreated)
        } else if str_eq(s, "address.deleted") {
            Some(EventTypeId::AddressDeleted)
        } else if str_eq(s, "bank_account.created") {
            Some(EventTypeId::BankAccountCreated)
        } else if str_eq(s, "bank_account.deleted") {
            Some(EventTypeId::BankAccountDeleted)
        } else if str_eq(s, "bank_account.verified") {
            Some(EventTypeId::BankAccountVerified)
        } else {
            None
        }
    }
}

/// The literal `object` tag that each resource carries on the wire.
#[derive(Debug, Clone, Copy, PartialEq, Eq, Structural)]
pub enum ObjectTag {
    Address,
    UsVerification,
    UsAutocompletion,
    UsZipLookup,
    InternationalVerification,
    Postcard,
    Letter,
    Check,
    BankAccount,
    TrackingEvent,
    Event,
    EventType,
    Envelope,
    List,
}

impl ObjectTag {
    /// The token of the value on the wire.
    pub fn as_str(&self) -> (r: &'static str)
        ensures
            r@ == self.wire_spec(),
    {
        match self {
            ObjectTag::Address => "address",
            ObjectTag::UsVerification => "us_verification",
            ObjectTag::UsAutocompletion => "us_autocompletion",
            ObjectTag::UsZipLookup => "us_zip_lookup",
            ObjectTag::InternationalVerification => "intl_verification",
            ObjectTag::Postcard => "postcard",
            ObjectTag::Letter => "letter",
            ObjectTag::Check => "check",
            ObjectTag::BankAccount => "bank_account",
            ObjectTag::TrackingEvent => "tracking_event",
            ObjectTag::Event => "event",
            ObjectTag::EventType => "event_type",
            ObjectTag::Envelope => "envelope",
            ObjectTag::List => "list",
        }
    }
}

impl WireText for ObjectTag {
    open spec fn wire_spec(&self) -> Seq<char> {
        match self {
            ObjectTag::Address => "address"@,
            ObjectTag::UsVerification => "us_verification"@,
            ObjectTag::UsAutocompletion => "us_autocompletion"@,
            ObjectTag::UsZipLookup => "us_zip_lookup"@,
            ObjectTag::InternationalVerification => "intl_verification"@,
            ObjectTag::Postcard => "postcard"@,
            ObjectTag::Letter => "letter"@,
            ObjectTag::Check => "check"@,
            ObjectTag::BankAccount => "bank_account"@,
            ObjectTag::TrackingEvent => "tracking_event"@,
            ObjectTag::Event => "event"@,
            ObjectTag::EventType => "event_type"@,
            ObjectTag::Envelope => "envelope"@,
            ObjectTag::List => "list"@,
        }
    }

    fn kind_label() -> &'static str {
        "object_tag"
    }

    fn to_wire(&self) -> (r: String) {
        String::from_str(self.as_str())
    }

    fn from_wire(s: &str) -> (r: Option<ObjectTag>) {
        if str_eq(s, "address") {
            Some(ObjectTag::Address)
        } else if str_eq(s, "us_verification") {
            Some(ObjectTag::UsVerification)
        } else if str_eq(s, "us_autocompletion") {
            Some(ObjectTag::UsAutocompletion)
        } else if str_eq(s, "us_zip_lookup") {
            Some(ObjectTag::UsZipLookup)
        } else if str_eq(s, "intl_verification") {
            Some(ObjectTag::InternationalVerification)
        } else if str_eq(s, "postcard") {
            Some(ObjectTag::Postcard)
        } else if str_eq(s, "letter") {
            Some(ObjectTag::Letter)
        } else if str_eq(s, "check") {
            Some(ObjectTag::Check)
        } else if str_eq(s, "bank_account") {
            Some(ObjectTag::BankAccount)
        } else if str_eq(s, "tracking_event") {
            Some(ObjectTag::TrackingEvent)
        } else if str_eq(s, "event") {
            Some(ObjectTag::Event)
        } else if str_eq(s, "event_type") {
            Some(ObjectTag::EventType)
        } else if str_eq(s, "envelope") {
            Some(ObjectTag::Envelope)
        } else if str_eq(s, "list") {
            Some(ObjectTag::List)
        } else {
            None
        }
    }
}

/// The shape of an event's body.
#[derive(Debug, Clone, Copy, PartialEq, Eq, Structural)]
pub enum BodyShape {
    Address,
    Postcard,
    Letter,
    Check,
    BankAccount,
    /// The marker of a deleted or canceled resource: its id and `deleted`.
    Delete,
}

impl EventTypeId {
    pub open spec fn resource_spec(self) -> Resource {
        match self {
            EventTypeId::PostcardCreated => Resource::Postcards,
            EventTypeId::PostcardRenderedPdf => Resource::Postcards,
            EventTypeId::PostcardRenderedThumbnails => Resource::Postcards,
            EventTypeId::PostcardDeleted => Resource::Postcards,
            EventTypeId::PostcardMailed => Resource::Postcards,
            EventTypeId::PostcardInTransit => Resource::Postcards,
            EventTypeId::PostcardInLocalArea => Resource::Postcards,
            EventTypeId::PostcardProcessedForDelivery => Resource::Postcards,
            EventTypeId::PostcardReRouted => Resource::Postcards,
            EventTypeId::PostcardReturnedToSender => Resource::Postcards,
            EventTypeId::LetterCreated => Resource::Letters,
            EventTypeId::LetterRenderedPdf => Resource::Letters,
            EventTypeId::LetterRenderedThumbnails => Resource::Letters,
            EventTypeId::LetterDeleted => Resource::Letters,
            EventTypeId::LetterMailed => Resource::Letters,
            EventTypeId::LetterInTransit => Resource::Letters,
            EventTypeId::LetterInLocalArea => Resource::Letters,
            EventTypeId::LetterProcessedForDelivery => Resource::Letters,
            EventTypeId::LetterReRouted => Resource::Letters,
            EventTypeId::LetterReturnedToSender => Resource::Letters,
            EventTypeId::CheckCreated => Resource::Checks,
            EventTypeId::CheckRenderedPdf => Resource::Checks,
            EventTypeId::CheckRenderedThumbnails => Resource::Checks,
            EventTypeId::CheckDeleted => Resource::Checks,
            EventTypeId::CheckInTransit => Resource::Checks,
            EventTypeId::CheckInLocalArea => Resource::Checks,
            EventTypeId::CheckProcessedForDelivery => Resource::Checks,
            EventTypeId::CheckReRouted => Resource::Checks,
            EventTypeId::CheckReturnedToSender => Resource::Checks,
            EventTypeId::AddressCreated => Resource::Addresses,
            EventTypeId::AddressDeleted => Resource::Addresses,
            EventTypeId::BankAccountCreated => Resource::BankAccounts,
            EventTypeId::BankAccountDeleted => Resource::BankAccounts,
            EventTypeId::BankAccountVerified => Resource::BankAccounts,
        }
    }

    /// Whether the event reports a deletion or cancellation.
    pub open spec fn is_deletion_spec(self) -> bool {
        self == EventTypeId::PostcardDeleted || self == EventTypeId::LetterDeleted || self == EventTypeId::CheckDeleted || self == EventTypeId::AddressDeleted || self == EventTypeId::BankAccountDeleted
    }

    /// The category of resource the event is about.
    pub fn resource(&self) -> (r: Resource)
        ensures
            r == self.resource_spec(),
    {
        match self {
            EventTypeId::PostcardCreated => Resource::Postcards,
            EventTypeId::PostcardRenderedPdf => Resource::Postcards,
            EventTypeId::PostcardRenderedThumbnails => Resource::Postcards,
            EventTypeId::PostcardDeleted => Resource::Postcards,
            EventTypeId::PostcardMailed => Resource::Postcards,
            EventTypeId::PostcardInTransit => Resource::Postcards,
            EventTypeId::PostcardInLocalArea => Resource::Postcards,
            EventTypeId::PostcardProcessedForDelivery => Resource::Postcards,
            EventTypeId::PostcardReRouted => Resource::Postcards,
            EventTypeId::PostcardReturnedToSender => Resource::Postcards,
            EventTypeId::LetterCreated => Resource::Letters,
            EventTypeId::LetterRenderedPdf => Resource::Letters,
            EventTypeId::LetterRenderedThumbnails => Resource::Letters,
            EventTypeId::LetterDeleted => Resource::Letters,
            EventTypeId::LetterMailed => Resource::Letters,
            EventTypeId::LetterInTransit => Resource::Letters,
            EventTypeId::LetterInLocalArea => Resource::Letters,
            EventTypeId::LetterProcessedForDelivery => Resource::Letters,
            EventTypeId::LetterReRouted => Resource::Letters,
            EventTypeId::LetterReturnedToSender => Resource::Letters,
            EventTypeId::CheckCreated => Resource::Checks,
            EventTypeId::CheckRenderedPdf => Resource::Checks,
            EventTypeId::CheckRenderedThumbnails => Resource::Checks,
            EventTypeId::CheckDeleted => Resource::Checks,
            EventTypeId::CheckInTransit => Resource::Checks,
            EventTypeId::CheckInLocalArea => Resource::Checks,
            EventTypeId::CheckProcessedForDelivery => Resource::Checks,
            EventTypeId::CheckReRouted => Resource::Checks,
            EventTypeId::CheckReturnedToSender => Resource::Checks,
            EventTypeId::AddressCreated => Resource::Addresses,
            EventTypeId::AddressDeleted => Resource::Addresses,
            EventTypeId::BankAccountCreated => Resource::BankAccounts,
            EventTypeId::BankAccountDeleted => Resource::BankAccounts,
            EventTypeId::BankAccountVerified => Resource::BankAccounts,
        }
    }

    /// Whether the event reports a deletion or cancellation.
    pub fn is_deletion(&self) -> (r: bool)
        ensures
            r == self.is_deletion_spec(),
    {
        match self {
            EventTypeId::PostcardDeleted => true,
            EventTypeId::LetterDeleted => true,
            EventTypeId::CheckDeleted => true,
            EventTypeId::AddressDeleted => true,
            EventTypeId::BankAccountDeleted => true,
            _ => false,
        }
    }
}

impl Resource {
    pub open spec fn shape_spec(self) -> BodyShape {
        match self {
            Resource::Postcards => BodyShape::Postcard,
            Resource::Letters => BodyShape::Letter,
            Resource::Checks => BodyShape::Check,
            Resource::Addresses => BodyShape::Address,
            Resource::BankAccounts => BodyShape::BankAccount,
        }
    }

    /// The shape of a full resource of this category.
    pub fn shape(&self) -> (r: BodyShape)
        ensures
            r == self.shape_spec(),
    {
        match self {
            Resource::Postcards => BodyShape::Postcard,
            Resource::Letters => BodyShape::Letter,
            Resource::Checks => BodyShape::Check,
            Resource::Addresses => BodyShape::Address,
            Resource::BankAccounts => BodyShape::BankAccount,
        }
    }
}

/// The shapes an event's body is tried as, first to last: the full resource
/// of the event's category, then, for a deletion, the deletion marker. No
/// other shape is ever tried, so similar resources cannot be confused.
pub open spec fn body_order(id: EventTypeId) -> Seq<BodyShape> {
    if id.is_deletion_spec() {
        seq![id.resource_spec().shape_spec(), BodyShape::Delete]
    } else {
        seq![id.resource_spec().shape_spec()]
    }
}

/// The shapes to try, in order, when decoding the body of an event of type `id`.
pub fn body_candidates(id: EventTypeId) -> (r: Vec<BodyShape>)
    ensures
        r@ == body_order(id),
{
    let mut r = Vec::new();
    r.push(id.resource().shape());
    if id.is_deletion() {
        r.push(BodyShape::Delete);
    }
    assert(r@ =~= body_order(id));
    r
}

impl ObjectTag {
    /// Accepts a decoded `object` field only when it is this tag: a payload
    /// of another resource is rejected, naming what was found.
    pub fn check(&self, found: &str) -> (r: Result<(), crate::codec::DecodeError>)
        ensures
            r is Ok <==> found@ == self.wire_spec(),
            r is Err ==> r->Err_0.found@ == found@ && r->Err_0.expected@ == self.wire_spec(),
    {
        if str_eq(found, self.as_str()) {
            Ok(())
        } else {
            Err(crate::codec::DecodeError { found: String::from_str(found), expected: String::from_str(self.as_str()) })
        }
    }
}

} // verus!
