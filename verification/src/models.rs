//! Domain data model: the fixed enumerations with their wire ordinals, the
//! booking / confirmation records, and the error kinds of the workflow.
//!
//! The external booking system speaks in small integers ("ordinal codes") in
//! place of enumerated names; the codecs here keep that mapping in one place
//! so that nothing relies on declaration order.

use vstd::prelude::*;

verus! {

/// One of the twelve fixed stations, in wire-ordinal order (codes 1 to 12).
#[derive(Clone, Copy, Debug, PartialEq, Eq, Structural)]
pub enum Station {
    Nangang,
    Taipei,
    Banqiao,
    Taoyuan,
    Hsinchu,
    Miaoli,
    Taichung,
    Changhua,
    Yunlin,
    Chiayi,
    Tainan,
    Zuouing,
}

/// Trip kind; only one-way trips are ever produced by this workflow.
#[derive(Clone, Copy, Debug, PartialEq, Eq, Structural)]
pub enum Trip {
    OneWay,
    RoundTrip,
}

/// Cabin class, wire codes 0 and 1.
#[derive(Clone, Copy, Debug, PartialEq, Eq, Structural)]
pub enum CabinClass {
    Standard,
    Business,
}

/// Seat preference, wire codes 0 to 2.
#[derive(Clone, Copy, Debug, PartialEq, Eq, Structural)]
pub enum SeatPref {
    NoPref,
    Window,
    Aisle,
}

pub open spec fn spec_station_code(s: Station) -> u8 {
    match s {
        Station::Nangang => 1,
        Station::Taipei => 2,
        Station::Banqiao => 3,
        Station::Taoyuan => 4,
        Station::Hsinchu => 5,
        Station::Miaoli => 6,
        Station::Taichung => 7,
        Station::Changhua => 8,
        Station::Yunlin => 9,
        Station::Chiayi => 10,
        Station::Tainan => 11,
        Station::Zuouing => 12,
    }
}

/// Wire ordinal of a station (1 to 12).
pub fn station_code(s: Station) -> (c: u8)
    ensures
        c == spec_station_code(s),
{
    match s {
        Station::Nangang => 1,
        Station::Taipei => 2,
        Station::Banqiao => 3,
        Station::Taoyuan => 4,
        Station::Hsinchu => 5,
        Station::Miaoli => 6,
        Station::Taichung => 7,
        Station::Changhua => 8,
        Station::Yunlin => 9,
        Station::Chiayi => 10,
        Station::Tainan => 11,
        Station::Zuouing => 12,
    }
}

/// The station carrying a given wire ordinal, if the ordinal is in range.
pub fn station_from_code(c: u8) -> (r: Option<Station>)
    ensures
        match r {
            Some(s) => spec_station_code(s) == c,
            None => !(1 <= c <= 12),
        },
        r is Some <==> 1 <= c <= 12,
{
    match c {
        1 => Some(Station::Nangang),
        2 => Some(Station::Taipei),
        3 => Some(Station::Banqiao),
        4 => Some(Station::Taoyuan),
        5 => Some(Station::Hsinchu),
        6 => Some(Station::Miaoli),
        7 => Some(Station::Taichung),
        8 => Some(Station::Changhua),
        9 => Some(Station::Yunlin),
        10 => Some(Station::Chiayi),
        11 => Some(Station::Tainan),
        12 => Some(Station::Zuouing),
        _ => None,
    }
}

pub open spec fn spec_trip_code(t: Trip) -> u8 {
    match t {
        Trip::OneWay => 0,
        Trip::RoundTrip => 1,
    }
}

/// Wire ordinal of a trip kind.
pub fn trip_code(t: Trip) -> (c: u8)
    ensures
        c == spec_trip_code(t),
{
    match t {
        Trip::OneWay => 0,
        Trip::RoundTrip => 1,
    }
}

pub open spec fn spec_cabin_class_code(c: CabinClass) -> u8 {
    match c {
        CabinClass::Standard => 0,
        CabinClass::Business => 1,
    }
}

/// Wire ordinal of a cabin class.
pub fn cabin_class_code(c: CabinClass) -> (r: u8)
    ensures
        r == spec_cabin_class_code(c),
{
    match c {
        CabinClass::Standard => 0,
        CabinClass::Business => 1,
    }
}

/// The cabin class carrying a given wire ordinal, if the ordinal is in range.
pub fn cabin_class_from_code(c: u8) -> (r: Option<CabinClass>)
    ensures
        match r {
            Some(cc) => spec_cabin_class_code(cc) == c,
            None => c > 1,
        },
        r is Some <==> c <= 1,
{
    match c {
        0 => Some(CabinClass::Standard),
        1 => Some(CabinClass::Business),
        _ => None,
    }
}

pub open spec fn spec_seat_pref_code(s: SeatPref) -> u8 {
    match s {
        SeatPref::NoPref => 0,
        SeatPref::Window => 1,
        SeatPref::Aisle => 2,
    }
}

/// Wire ordinal of a seat preference.
pub fn seat_pref_code(s: SeatPref) -> (r: u8)
    ensures
        r == spec_seat_pref_code(s),
{
    match s {
        SeatPref::NoPref => 0,
        SeatPref::Window => 1,
        SeatPref::Aisle => 2,
    }
}

/// The seat preference carrying a given wire ordinal, if the ordinal is in range.
pub fn seat_pref_from_code(c: u8) -> (r: Option<SeatPref>)
    ensures
        match r {
            Some(s) => spec_seat_pref_code(s) == c,
            None => c > 2,
        },
        r is Some <==> c <= 2,
{
    match c {
        0 => Some(SeatPref::NoPref),
        1 => Some(SeatPref::Window),
        2 => Some(SeatPref::Aisle),
        _ => None,
    }
}

pub open spec fn spec_station_name(s: Station) -> Seq<char> {
    match s {
        Station::Nangang => "Nangang"@,
        Station::Taipei => "Taipei"@,
        Station::Banqiao => "Banqiao"@,
        Station::Taoyuan => "Taoyuan"@,
        Station::Hsinchu => "Hsinchu"@,
        Station::Miaoli => "Miaoli"@,
        Station::Taichung => "Taichung"@,
        Station::Changhua => "Changhua"@,
        Station::Yunlin => "Yunlin"@,
        Station::Chiayi => "Chiayi"@,
        Station::Tainan => "Tainan"@,
        Station::Zuouing => "Zuouing"@,
    }
}

/// Display name of a station.
pub fn station_name(s: Station) -> (r: String)
    ensures
        r@ == spec_station_name(s),
{
    match s {
        Station::Nangang => String::from_str("Nangang"),
        Station::Taipei => String::from_str("Taipei"),
        Station::Banqiao => String::from_str("Banqiao"),
        Station::Taoyuan => String::from_str("Taoyuan"),
        Station::Hsinchu => String::from_str("Hsinchu"),
        Station::Miaoli => String::from_str("Miaoli"),
        Station::Taichung => String::from_str("Taichung"),
        Station::Changhua => String::from_str("Changhua"),
        Station::Yunlin => String::from_str("Yunlin"),
        Station::Chiayi => String::from_str("Chiayi"),
        Station::Tainan => String::from_str("Tainan"),
        Station::Zuouing => String::from_str("Zuouing"),
    }
}

pub open spec fn spec_cabin_class_name(c: CabinClass) -> Seq<char> {
    match c {
        CabinClass::Standard => "Standard"@,
        CabinClass::Business => "Business"@,
    }
}

/// Display name of a cabin class.
pub fn cabin_class_name(c: CabinClass) -> (r: String)
    ensures
        r@ == spec_cabin_class_name(c),
{
    match c {
        CabinClass::Standard => String::from_str("Standard"),
        CabinClass::Business => String::from_str("Business"),
    }
}

pub open spec fn spec_seat_pref_name(s: SeatPref) -> Seq<char> {
    match s {
        SeatPref::NoPref => "NoPref"@,
        SeatPref::Window => "Window"@,
        SeatPref::Aisle => "Aisle"@,
    }
}

/// Display name of a seat preference.
pub fn seat_pref_name(s: SeatPref) -> (r: String)
    ensures
        r@ == spec_seat_pref_name(s),
{
    match s {
        SeatPref::NoPref => String::from_str("NoPref"),
        SeatPref::Window => String::from_str("Window"),
        SeatPref::Aisle => String::from_str("Aisle"),
    }
}

/// The reusable, user-editable portion of a booking.
#[derive(Debug, PartialEq)]
pub struct BookingPersisted {
    pub start_station: Station,
    pub dest_station: Station,
    pub outbound_date: String,
    pub outbound_time: String,
    pub seat_prefer: SeatPref,
    pub class_type: CabinClass,
    pub adult_ticket_num: u8,
    pub child_ticket_num: u8,
    pub disabled_ticket_num: u8,
    pub elder_ticket_num: u8,
    pub college_ticket_num: u8,
}

/// Mathematical model of a `BookingPersisted`.
pub struct BookingPersistedView {
    pub start_station: Station,
    pub dest_station: Station,
    pub outbound_date: Seq<char>,
    pub outbound_time: Seq<char>,
    pub seat_prefer: SeatPref,
    pub class_type: CabinClass,
    pub adult_ticket_num: u8,
    pub child_ticket_num: u8,
    pub disabled_ticket_num: u8,
    pub elder_ticket_num: u8,
    pub college_ticket_num: u8,
}

impl View for BookingPersisted {
    type V = BookingPersistedView;

    open spec fn view(&self) -> BookingPersistedView {
        BookingPersistedView {
            start_station: self.start_station,
            dest_station: self.dest_station,
            outbound_date: self.outbound_date@,
            outbound_time: self.outbound_time@,
            seat_prefer: self.seat_prefer,
            class_type: self.class_type,
            adult_ticket_num: self.adult_ticket_num,
            child_ticket_num: self.child_ticket_num,
            disabled_ticket_num: self.disabled_ticket_num,
            elder_ticket_num: self.elder_ticket_num,
            college_ticket_num: self.college_ticket_num,
        }
    }
}

impl BookingPersisted {
    /// An equal, independently owned copy.
    pub fn duplicate(&self) -> (r: BookingPersisted)
        ensures
            r@ == self@,
    {
        BookingPersisted {
            start_station: self.start_station,
            dest_station: self.dest_station,
            outbound_date: self.outbound_date.clone(),
            outbound_time: self.outbound_time.clone(),
            seat_prefer: self.seat_prefer,
            class_type: self.class_type,
            adult_ticket_num: self.adult_ticket_num,
            child_ticket_num: self.child_ticket_num,
            disabled_ticket_num: self.disabled_ticket_num,
            elder_ticket_num: self.elder_ticket_num,
            college_ticket_num: self.college_ticket_num,
        }
    }
}

/// The full booking submission for one run: the persisted part plus the
/// session-specific fields.
#[derive(Debug, PartialEq)]
pub struct Booking {
    pub persisted: BookingPersisted,
    pub search_by: String,
    pub types_of_trip: Trip,
    pub security_code: String,
    pub form_mark: String,
    pub inbound_date: Option<String>,
    pub inbound_time: Option<String>,
    pub to_train_id: Option<i16>,
    pub back_train_id: Option<i16>,
}

/// Mathematical model of a `Booking`.
pub struct BookingView {
    pub persisted: BookingPersistedView,
    pub search_by: Seq<char>,
    pub types_of_trip: Trip,
    pub security_code: Seq<char>,
    pub form_mark: Seq<char>,
    pub inbound_date: Option<Seq<char>>,
    pub inbound_time: Option<Seq<char>>,
    pub to_train_id: Option<i16>,
    pub back_train_id: Option<i16>,
}

impl View for Booking {
    type V = BookingView;

    open spec fn view(&self) -> BookingView {
        BookingView {
            persisted: self.persisted@,
            search_by: self.search_by@,
            types_of_trip: self.types_of_trip,
            security_code: self.security_code@,
            form_mark: self.form_mark@,
            inbound_date: self.inbound_date.deep_view(),
            inbound_time: self.inbound_time.deep_view(),
            to_train_id: self.to_train_id,
            back_train_id: self.back_train_id,
        }
    }
}

/// One selectable train from the query results.
#[derive(Debug, PartialEq)]
pub struct TrainInfo {
    pub id: i16,
    pub depart: String,
    pub arrive: String,
    pub travel_time: String,
    pub discount_str: String,
    pub form_value: String,
}

/// Mathematical model of a `TrainInfo`.
pub struct TrainInfoView {
    pub id: i16,
    pub depart: Seq<char>,
    pub arrive: Seq<char>,
    pub travel_time: Seq<char>,
    pub discount_str: Seq<char>,
    pub form_value: Seq<char>,
}

impl View for TrainInfo {
    type V = TrainInfoView;

    open spec fn view(&self) -> TrainInfoView {
        TrainInfoView {
            id: self.id,
            depart: self.depart@,
            arrive: self.arrive@,
            travel_time: self.travel_time@,
            discount_str: self.discount_str@,
            form_value: self.form_value@,
        }
    }
}

/// The chosen train's opaque selection token, ready for submission.
#[derive(Debug, PartialEq)]
pub struct TrainSelection {
    pub selected_train: String,
    pub form_mark: String,
}

/// Mathematical model of a `TrainSelection`.
pub struct TrainSelectionView {
    pub selected_train: Seq<char>,
    pub form_mark: Seq<char>,
}

impl View for TrainSelection {
    type V = TrainSelectionView;

    open spec fn view(&self) -> TrainSelectionView {
        TrainSelectionView { selected_train: self.selected_train@, form_mark: self.form_mark@ }
    }
}

/// One positional identity field: the full field key and the identity string
/// entered for it.
#[derive(Debug, PartialEq)]
pub struct SupplementId {
    pub key: String,
    pub value: String,
}

/// Mathematical model of a `SupplementId`.
pub struct SupplementIdView {
    pub key: Seq<char>,
    pub value: Seq<char>,
}

impl View for SupplementId {
    type V = SupplementIdView;

    open spec fn view(&self) -> SupplementIdView {
        SupplementIdView { key: self.key@, value: self.value@ }
    }
}

/// The reusable portion of a ticket confirmation: contact data and the
/// per-passenger identity fields, keyed positionally.
#[derive(Debug, PartialEq)]
pub struct TicketConfirmationPersisted {
    pub personal_id: String,
    pub phone_num: String,
    pub supplemental_ids: Vec<SupplementId>,
}

/// Mathematical model of a `TicketConfirmationPersisted`.
pub struct TicketConfirmationPersistedView {
    pub personal_id: Seq<char>,
    pub phone_num: Seq<char>,
    pub supplemental_ids: Seq<SupplementIdView>,
}

impl View for TicketConfirmationPersisted {
    type V = TicketConfirmationPersistedView;

    open spec fn view(&self) -> TicketConfirmationPersistedView {
        TicketConfirmationPersistedView {
            personal_id: self.personal_id@,
            phone_num: self.phone_num@,
            supplemental_ids: Seq::new(
                self.supplemental_ids@.len(),
                |i: int| self.supplemental_ids@[i]@,
            ),
        }
    }
}

impl TicketConfirmationPersisted {
    /// An equal, independently owned copy.
    pub fn duplicate(&self) -> (r: TicketConfirmationPersisted)
        ensures
            r@ == self@,
    {
        let mut ids: Vec<SupplementId> = Vec::new();
        let mut i: usize = 0;
        while i < self.supplemental_ids.len()
            invariant
                i <= self.supplemental_ids.len(),
                ids@.len() == i as nat,
                forall|j: int| 0 <= j < i ==> ids@[j]@ == self.supplemental_ids@[j]@,
            decreases self.supplemental_ids.len() - i,
        {
            let entry = &self.supplemental_ids[i];
            ids.push(SupplementId { key: entry.key.clone(), value: entry.value.clone() });
            i = i + 1;
        }
        let r = TicketConfirmationPersisted {
            personal_id: self.personal_id.clone(),
            phone_num: self.phone_num.clone(),
            supplemental_ids: ids,
        };
        proof {
            assert(r@.supplemental_ids =~= self@.supplemental_ids);
        }
        r
    }
}

/// The full confirmation submission: the persisted part, the member-system
/// token, and the fixed defaults the form expects.
#[derive(Debug, PartialEq)]
pub struct TicketConfirmation {
    pub persisted: TicketConfirmationPersisted,
    pub member_radio: String,
    pub form_mark: String,
    pub id_input_radio: i8,
    pub diff_over: i8,
    pub email: String,
    pub agree: String,
    pub go_back_m: String,
    pub back_home: String,
    pub tgo_error: i8,
}

/// Mathematical model of a `TicketConfirmation`.
pub struct TicketConfirmationView {
    pub persisted: TicketConfirmationPersistedView,
    pub member_radio: Seq<char>,
    pub form_mark: Seq<char>,
    pub id_input_radio: i8,
    pub diff_over: i8,
    pub email: Seq<char>,
    pub agree: Seq<char>,
    pub go_back_m: Seq<char>,
    pub back_home: Seq<char>,
    pub tgo_error: i8,
}

impl View for TicketConfirmation {
    type V = TicketConfirmationView;

    open spec fn view(&self) -> TicketConfirmationView {
        TicketConfirmationView {
            persisted: self.persisted@,
            member_radio: self.member_radio@,
            form_mark: self.form_mark@,
            id_input_radio: self.id_input_radio,
            diff_over: self.diff_over,
            email: self.email@,
            agree: self.agree@,
            go_back_m: self.go_back_m@,
            back_home: self.back_home@,
            tgo_error: self.tgo_error,
        }
    }
}

/// A saved, reusable pair of booking preferences and passenger identity data.
#[derive(Debug, PartialEq)]
pub struct Preset {
    pub booking: BookingPersisted,
    pub ticket_confirmation: TicketConfirmationPersisted,
}

/// Session-bound parameters extracted from the booking page.
#[derive(Debug, PartialEq)]
pub struct BookingFormParams {
    pub session_id: String,
    pub search_by_time_value: String,
    pub time_options: Vec<String>,
}

/// Session-bound parameters extracted from the train-selection response.
#[derive(Debug, PartialEq)]
pub struct TicketConfirmationFormParams {
    pub member_value: String,
}

/// The feedback-panel error messages returned by the external system after a
/// submission.
#[derive(Debug, PartialEq)]
pub struct ErrorMessages {
    pub errors: Vec<String>,
}

/// The error kinds of the workflow; each one is fatal to the run.
#[derive(Debug, PartialEq)]
pub enum WorkflowError {
    /// A ticket-count field did not carry its expected category suffix or a
    /// numeric prefix.
    MalformedCount,
    /// An expected element was absent from a returned document: the external
    /// page structure diverged from what the workflow expects.
    MalformedDocument,
    /// The external system rejected a submission with feedback-panel messages.
    ValidationRejected(ErrorMessages),
    /// A referenced preset index was out of range.
    PresetNotFound,
}

/// The structured summary of a completed booking.
#[derive(Debug, PartialEq)]
pub struct ConfirmationSummary {
    pub ticket_id: String,
    pub total_price: String,
    pub date: String,
    pub from_station: String,
    pub to_station: String,
    pub depart_time: String,
    pub arrive_time: String,
    pub train_code: String,
    pub cabin_label: String,
    pub seat_labels: Vec<String>,
}

/// Mathematical model of a `ConfirmationSummary`.
pub struct ConfirmationSummaryView {
    pub ticket_id: Seq<char>,
    pub total_price: Seq<char>,
    pub date: Seq<char>,
    pub from_station: Seq<char>,
    pub to_station: Seq<char>,
    pub depart_time: Seq<char>,
    pub arrive_time: Seq<char>,
    pub train_code: Seq<char>,
    pub cabin_label: Seq<char>,
    pub seat_labels: Seq<Seq<char>>,
}

impl View for ConfirmationSummary {
    type V = ConfirmationSummaryView;

    open spec fn view(&self) -> ConfirmationSummaryView {
        ConfirmationSummaryView {
            ticket_id: self.ticket_id@,
            total_price: self.total_price@,
            date: self.date@,
            from_station: self.from_station@,
            to_station: self.to_station@,
            depart_time: self.depart_time@,
            arrive_time: self.arrive_time@,
            train_code: self.train_code@,
            cabin_label: self.cabin_label@,
            seat_labels: self.seat_labels.deep_view(),
        }
    }
}

} // verus!
