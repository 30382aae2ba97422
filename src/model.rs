//! The domain model: the resources of the service as the library sees them,
//! after a reply body has been decoded into them.
use vstd::prelude::*;

use crate::text::{decimal, decimal_text, same_text};

verus! {

/// The state of a machine, as the service reports it.
///
/// The service owns the state machine; the library only reads it. A state
/// name that the library does not know is kept verbatim in `Unknown`.
#[derive(Debug, Clone, PartialEq, Eq)]
pub enum MachineState {
    Available,
    Reserved,
    Occupied,
    Stoppable,
    Faulted,
    Unknown(String),
}

/// Whether `s` is the wire name of one of the known states.
pub open spec fn is_known_wire_name(s: Seq<char>) -> bool {
    s == "AVAILABLE"@ || s == "RESERVED"@ || s == "OCCUPIED"@ || s == "STOPPABLE"@ || s
        == "FAULTED"@
}

impl MachineState {
    /// The name under which the service sends this state.
    pub open spec fn wire_name(&self) -> Seq<char> {
        match self {
            MachineState::Available => "AVAILABLE"@,
            MachineState::Reserved => "RESERVED"@,
            MachineState::Occupied => "OCCUPIED"@,
            MachineState::Stoppable => "STOPPABLE"@,
            MachineState::Faulted => "FAULTED"@,
            MachineState::Unknown(raw) => raw@,
        }
    }

    /// The human-facing name of this state.
    pub open spec fn label_spec(&self) -> Seq<char> {
        match self {
            MachineState::Available => "Available"@,
            MachineState::Reserved => "Reserved"@,
            MachineState::Occupied => "Occupied"@,
            MachineState::Stoppable => "Stoppable"@,
            MachineState::Faulted => "Faulted"@,
            MachineState::Unknown(raw) => raw@,
        }
    }

    /// Whether a session is running on a machine in this state.
    pub open spec fn in_session(&self) -> bool {
        self is Occupied || self is Stoppable
    }

    /// Reads a state from its wire name; a name that is not known becomes
    /// `Unknown` with the name kept as it came.
    pub fn from_wire(s: &str) -> (r: MachineState)
        ensures
            r.wire_name() == s@,
            r is Unknown <==> !is_known_wire_name(s@),
    {
        if same_text(s, "AVAILABLE") {
            MachineState::Available
        } else if same_text(s, "RESERVED") {
            MachineState::Reserved
        } else if same_text(s, "OCCUPIED") {
            MachineState::Occupied
        } else if same_text(s, "STOPPABLE") {
            MachineState::Stoppable
        } else if same_text(s, "FAULTED") {
            MachineState::Faulted
        } else {
            MachineState::Unknown(String::from_str(s))
        }
    }

    /// The name under which the service sends this state.
    pub fn wire_text(&self) -> (r: &str)
        ensures
            r@ == self.wire_name(),
    {
        match self {
            MachineState::Available => "AVAILABLE",
            MachineState::Reserved => "RESERVED",
            MachineState::Occupied => "OCCUPIED",
            MachineState::Stoppable => "STOPPABLE",
            MachineState::Faulted => "FAULTED",
            MachineState::Unknown(raw) => raw.as_str(),
        }
    }

    /// The human-facing name of this state.
    pub fn label(&self) -> (r: &str)
        ensures
            r@ == self.label_spec(),
    {
        match self {
            MachineState::Available => "Available",
            MachineState::Reserved => "Reserved",
            MachineState::Occupied => "Occupied",
            MachineState::Stoppable => "Stoppable",
            MachineState::Faulted => "Faulted",
            MachineState::Unknown(raw) => raw.as_str(),
        }
    }

    /// Whether a session is running on a machine in this state.
    pub fn is_in_session(&self) -> (r: bool)
        ensures
            r == self.in_session(),
    {
        match self {
            MachineState::Occupied | MachineState::Stoppable => true,
            _ => false,
        }
    }
}

/// Integer division by a hundred that drops the fraction: the major-unit
/// amount shown for a number of cents, for negative amounts too.
pub open spec fn whole_units(cents: int) -> int {
    if cents >= 0 {
        cents / 100
    } else {
        -((-cents) / 100)
    }
}

/// The major-unit amount drops the fraction of a unit, never rounding up:
/// it is the whole number of hundreds in the amount, toward zero.
pub proof fn lemma_whole_units_truncates(cents: int)
    ensures
        cents >= 0 ==> 100 * whole_units(cents) <= cents < 100 * (whole_units(cents) + 1),
        cents < 0 ==> 100 * (whole_units(cents) - 1) < cents <= 100 * whole_units(cents),
{
    if cents >= 0 {
        assert(100 * (cents / 100) <= cents < 100 * (cents / 100 + 1)) by (nonlinear_arith)
            requires
                cents >= 0,
        ;
    } else {
        let m = -cents;
        assert(100 * (m / 100) <= m < 100 * (m / 100 + 1)) by (nonlinear_arith)
            requires
                m > 0,
        ;
    }
}

/// The major-unit amount of a non-negative number of cents.
pub fn units_of_cents(cents: u32) -> (r: u32)
    ensures
        r == whole_units(cents as int),
{
    cents / 100
}

/// The major-unit amount of a signed number of cents, truncated toward zero.
pub fn units_of_signed_cents(cents: i32) -> (r: i32)
    ensures
        r == whole_units(cents as int),
{
    let wide: i64 = cents as i64;
    if wide >= 0 {
        (wide / 100) as i32
    } else {
        (-((-wide) / 100)) as i32
    }
}

/// One priced component of a service.
#[derive(Debug, Clone)]
pub struct ComponentPriceObject {
    pub full_price_string: String,
    pub price_string: String,
    pub cost_cents: u32,
}

impl ComponentPriceObject {
    /// The cost in major units.
    pub fn cost_units(&self) -> (r: u32)
        ensures
            r == whole_units(self.cost_cents as int),
    {
        units_of_cents(self.cost_cents)
    }
}

/// The price list of one service type.
#[derive(Debug, Clone)]
pub struct PricingInfo {
    pub service_type: String,
    pub component_price_objects: Vec<ComponentPriceObject>,
}

/// The envelope in which the service sends most resources: a status code,
/// its description, and the resource itself.
#[derive(Debug, Clone)]
pub struct Response<T> {
    pub error_code: usize,
    pub error_description: String,
    pub token_expire_ts: usize,
    pub server_time: usize,
    pub data: T,
}

/// The reply to a login.
#[derive(Debug)]
pub struct LoginResponse {
    pub error_code: u32,
    pub error_description: String,
    pub token_expire_ts: u32,
    pub server_time: u32,
    pub active_sessions: Vec<serde_json::Value>,
    pub login: LoginInfo,
}

/// The account part of a login reply, with the token secret.
#[derive(Debug, Clone)]
pub struct LoginInfo {
    pub email: String,
    pub username: String,
    pub external_id: String,
    pub language: String,
    pub token: String,
    pub offline_allowed: bool,
    pub manage_others: bool,
    pub administrator: bool,
    pub view_invoice: bool,
    pub view_transaction_history: bool,
    pub view_products: bool,
    pub api_message_permission: bool,
    pub correction_allowed: bool,
    pub installer: bool,
    pub start_multiple: bool,
    pub start_for_others: bool,
    pub time_for_review: bool,
}

/// The reply to a reserve or a stop.
#[derive(Debug, Clone)]
pub struct ReserveStopResponse {
    pub error_code: u32,
    pub error_description: String,
    pub token_expire_ts: u32,
    pub server_time: u32,
}

/// The reply to a balance request.
#[derive(Debug, Clone)]
pub struct BalanceResponse {
    pub error_code: u32,
    pub error_description: String,
    pub token_expire_ts: u32,
    pub server_time: u32,
    pub account_id: String,
    pub currency: String,
    pub balance_cents: u32,
    pub balance_date_time: u32,
}

/// One machine of a location, as last read from the service.
#[derive(Debug)]
pub struct MachineData {
    pub external_id: String,
    pub location_id: String,
    pub location: String,
    pub location_top_level_name: String,
    pub service_type: String,
    pub service_name: String,
    pub unit: String,
    pub state: MachineState,
    pub state_description: String,
    pub last_session_start: Option<i64>,
    pub required_fields: Vec<serde_json::Value>,
    pub free_form_question_int: Vec<serde_json::Value>,
    pub pricing: Vec<PricingInfo>,
    pub tariff_set_name: String,
    pub gps: serde_json::Value,
    pub reservable: String,
    pub reservations: Vec<serde_json::Value>,
    pub block_time_seconds: u32,
    pub time_of_arrival_seconds: u32,
    pub checkout_time_seconds: u32,
    pub start_with_predetermined_usage: bool,
    pub optional_name: Option<String>,
}

impl MachineData {
    /// A session start time is present exactly when a session is running.
    pub open spec fn session_consistent(&self) -> bool {
        self.state.in_session() <==> self.last_session_start is Some
    }

    /// Whether a session start time is present exactly when a session runs.
    pub fn has_consistent_session(&self) -> (r: bool)
        ensures
            r == self.session_consistent(),
    {
        self.state.is_in_session() == self.last_session_start.is_some()
    }
}

/// The envelope of a machine list.
#[derive(Debug)]
pub struct Machines {
    pub error_code: u32,
    pub error_description: String,
    pub token_expire_ts: u32,
    pub server_time: u32,
    pub data: Vec<MachineData>,
}

/// One entry of the account's prepaid history.
#[derive(Debug, Clone)]
pub struct History {
    pub mutation_timestamp: u32,
    pub currency: String,
    pub mutation_cents: i32,
    pub balance_cents_before: u32,
    pub balance_cents_after: u32,
    pub mutation_description: String,
    pub service_type: Option<String>,
}

impl History {
    /// The amount of this entry in major units, truncated toward zero.
    pub fn mutation_units(&self) -> (r: i32)
        ensures
            r == whole_units(self.mutation_cents as int),
    {
        units_of_signed_cents(self.mutation_cents)
    }

    /// The balance after this entry in major units.
    pub fn balance_after_units(&self) -> (r: u32)
        ensures
            r == whole_units(self.balance_cents_after as int),
    {
        units_of_cents(self.balance_cents_after)
    }
}

/// The kind of a location.
#[derive(Debug, Clone)]
pub struct LocationTypeObject {
    pub location_type: String,
    pub name: String,
}

/// A location and the services it offers.
#[derive(Debug)]
pub struct LocationInfo {
    pub name: String,
    pub external_id: String,
    pub gps: serde_json::Value,
    pub location_type_v2: String,
    pub location_type_object: LocationTypeObject,
    pub location_status: String,
    pub duration_required: bool,
    pub known_communication_issues: bool,
    pub services: Vec<serde_json::Value>,
    pub pricing: Vec<serde_json::Value>,
    pub products: Vec<serde_json::Value>,
    pub child_locations: Vec<serde_json::Value>,
    pub max_days_in_advance: u32,
    pub reserved_type: String,
    pub service_types: Vec<serde_json::Value>,
}

/// The prepaid balance of the account.
#[derive(Debug, Clone, PartialEq, Eq)]
pub struct Balance {
    pub amount_cents: u32,
    pub currency: String,
}

impl Balance {
    /// The balance in major units.
    pub fn amount_units(&self) -> (r: u32)
        ensures
            r == whole_units(self.amount_cents as int),
    {
        units_of_cents(self.amount_cents)
    }

    /// The balance as shown to a person: the major-unit amount, a space, and
    /// the currency.
    pub fn display_text(&self) -> (r: String)
        ensures
            r@ == decimal(whole_units(self.amount_cents as int) as nat) + " "@ + self.currency@,
    {
        let amount = decimal_text(self.amount_units() as u64);
        let spaced = amount.concat(" ");
        spaced.concat(self.currency.as_str())
    }
}

/// The outcome of a reserve or a stop: a code, where zero alone means
/// success, and the service's description of it.
#[derive(Debug, Clone, PartialEq, Eq)]
pub struct ActionResult {
    pub error_code: u32,
    pub error_description: String,
}

impl ActionResult {
    /// Whether the service carried the action out.
    pub fn succeeded(&self) -> (r: bool)
        ensures
            r == (self.error_code == 0),
    {
        self.error_code == 0
    }
}

} // verus!
