use vstd::prelude::*;

use core::cmp::Ordering;

use crate::text::same_text;

verus! {

/// Represents the state of a service / resource.
///
/// The variants are declared from the best to the worst state, so that the derived order is the
/// severity order `Ok < Unknown < Warning < Critical`.
#[derive(Copy, Clone, Debug, PartialEq, Eq, Structural, Ord)]
pub enum ServiceState {
    Okay,
    Unknown,
    Warning,
    Critical,
}

/// The severity rank of a state: `Ok < Unknown < Warning < Critical`.
pub open spec fn rank(s: ServiceState) -> nat {
    match s {
        ServiceState::Okay => 0,
        ServiceState::Unknown => 1,
        ServiceState::Warning => 2,
        ServiceState::Critical => 3,
    }
}

/// The process exit code that belongs to a state. This table does not follow the rank.
pub open spec fn exit_code_of(s: ServiceState) -> i32 {
    match s {
        ServiceState::Okay => 0,
        ServiceState::Warning => 1,
        ServiceState::Critical => 2,
        ServiceState::Unknown => 3,
    }
}

/// The worse of two states by rank (the join of the rank order).
pub open spec fn worse(a: ServiceState, b: ServiceState) -> ServiceState {
    if rank(a) >= rank(b) {
        a
    } else {
        b
    }
}

/// The text form of a state.
pub open spec fn label(s: ServiceState) -> Seq<char> {
    match s {
        ServiceState::Okay => seq!['O', 'K'],
        ServiceState::Warning => seq!['W', 'A', 'R', 'N', 'I', 'N', 'G'],
        ServiceState::Critical => seq!['C', 'R', 'I', 'T', 'I', 'C', 'A', 'L'],
        ServiceState::Unknown => seq!['U', 'N', 'K', 'N', 'O', 'W', 'N'],
    }
}

impl ServiceState {
    /// Returns the corresponding exit code for this state.
    pub fn exit_code(&self) -> (r: i32)
        ensures
            r == exit_code_of(*self),
    {
        match self {
            ServiceState::Okay => 0,
            ServiceState::Warning => 1,
            ServiceState::Critical => 2,
            ServiceState::Unknown => 3,
        }
    }

    /// Returns a number for ordering purposes. Ordering is Ok < Unknown < Warning < Critical.
    fn order_number(&self) -> (r: u8)
        ensures
            r == rank(*self),
    {
        match self {
            ServiceState::Okay => 0,
            ServiceState::Unknown => 1,
            ServiceState::Warning => 2,
            ServiceState::Critical => 3,
        }
    }

    /// The worse of the two states.
    pub fn max(self, other: ServiceState) -> (r: ServiceState)
        ensures
            r == worse(self, other),
    {
        if self.order_number() >= other.order_number() {
            self
        } else {
            other
        }
    }

    /// The text form of this state: `OK`, `WARNING`, `CRITICAL` or `UNKNOWN`.
    pub fn as_str(&self) -> (r: &'static str)
        ensures
            r@ == label(*self),
    {
        match self {
            ServiceState::Okay => {
                proof {
                    reveal_strlit("OK");
                }
                "OK"
            },
            ServiceState::Warning => {
                proof {
                    reveal_strlit("WARNING");
                }
                "WARNING"
            },
            ServiceState::Critical => {
                proof {
                    reveal_strlit("CRITICAL");
                }
                "CRITICAL"
            },
            ServiceState::Unknown => {
                proof {
                    reveal_strlit("UNKNOWN");
                }
                "UNKNOWN"
            },
        }
    }

    /// The text form of this state as an owned string.
    pub fn to_string(&self) -> (r: String)
        ensures
            r@ == label(*self),
    {
        self.as_str().to_owned()
    }
}

/// The severity order on the rank.
pub open spec fn rank_cmp(a: ServiceState, b: ServiceState) -> Ordering {
    if rank(a) < rank(b) {
        Ordering::Less
    } else if rank(a) == rank(b) {
        Ordering::Equal
    } else {
        Ordering::Greater
    }
}

impl PartialOrd for ServiceState {
    fn partial_cmp(&self, other: &ServiceState) -> (r: Option<Ordering>) {
        let a = self.order_number();
        let b = other.order_number();
        if a < b {
            Some(Ordering::Less)
        } else if a == b {
            Some(Ordering::Equal)
        } else {
            Some(Ordering::Greater)
        }
    }
}

impl vstd::std_specs::cmp::PartialOrdSpecImpl for ServiceState {
    open spec fn obeys_partial_cmp_spec() -> bool {
        true
    }

    open spec fn partial_cmp_spec(&self, other: &ServiceState) -> Option<Ordering> {
        Some(rank_cmp(*self, *other))
    }
}

/// The join on the rank order: commutative, associative and idempotent, and its result is the
/// argument of the higher rank. Distinct states have distinct ranks, so that argument is unique.
pub proof fn lemma_max_is_join(a: ServiceState, b: ServiceState, c: ServiceState)
    ensures
        worse(a, b) == worse(b, a),
        worse(worse(a, b), c) == worse(a, worse(b, c)),
        worse(a, a) == a,
        rank(worse(a, b)) == if rank(a) >= rank(b) { rank(a) } else { rank(b) },
        worse(a, b) == a || worse(a, b) == b,
        rank(a) == rank(b) <==> a == b,
{
}

/// This error is returned when a text names none of the states.
#[derive(Copy, Clone, Debug, PartialEq, Eq, Structural)]
pub struct ServiceStateFromStrError;

impl ServiceStateFromStrError {
    /// The text of this error.
    pub fn message(&self) -> (r: &'static str)
        ensures
            r@ == "expected one of: ok, warning, critical, unknown"@,
    {
        "expected one of: ok, warning, critical, unknown"
    }
}

/// The lower-case form of a text, as `str::to_lowercase` gives it.
pub uninterp spec fn lowercase_of(s: Seq<char>) -> Seq<char>;

/// The lower-case form of an ASCII character: `A` to `Z` become `a` to `z`, the others stay.
pub open spec fn ascii_lower(c: char) -> char {
    if 'A' <= c && c <= 'Z' {
        ((c as u32) + 32) as char
    } else {
        c
    }
}

/// Whether every character of `s` is ASCII.
pub open spec fn all_ascii(s: Seq<char>) -> bool {
    forall|i: int| 0 <= i < s.len() ==> (#[trigger] s[i] as u32) < 128
}

/// Relies on `str::to_lowercase`: the lower-case form depends on the characters alone, and on
/// ASCII text it maps `A` to `Z` to `a` to `z` and keeps every other character.
#[verifier::external_body]
fn to_lowercase(s: &str) -> (r: String)
    ensures
        r@ == lowercase_of(s@),
        all_ascii(s@) ==> r@ == s@.map_values(|c: char| ascii_lower(c)),
{
    s.to_lowercase()
}

/// The state whose lower-case name is `name`, if any.
pub open spec fn state_named(name: Seq<char>) -> Option<ServiceState> {
    if name == seq!['o', 'k'] {
        Some(ServiceState::Okay)
    } else if name == seq!['w', 'a', 'r', 'n', 'i', 'n', 'g'] {
        Some(ServiceState::Warning)
    } else if name == seq!['c', 'r', 'i', 't', 'i', 'c', 'a', 'l'] {
        Some(ServiceState::Critical)
    } else if name == seq!['u', 'n', 'k', 'n', 'o', 'w', 'n'] {
        Some(ServiceState::Unknown)
    } else {
        None
    }
}

/// The lower-case name of a state.
pub open spec fn lower_label(s: ServiceState) -> Seq<char> {
    match s {
        ServiceState::Okay => seq!['o', 'k'],
        ServiceState::Warning => seq!['w', 'a', 'r', 'n', 'i', 'n', 'g'],
        ServiceState::Critical => seq!['c', 'r', 'i', 't', 'i', 'c', 'a', 'l'],
        ServiceState::Unknown => seq!['u', 'n', 'k', 'n', 'o', 'w', 'n'],
    }
}

/// The outcome of parsing a text whose lower-case form is `lower`.
pub open spec fn parsed_state(lower: Seq<char>) -> Result<ServiceState, ServiceStateFromStrError> {
    match state_named(lower) {
        Some(s) => Ok(s),
        None => Err(ServiceStateFromStrError),
    }
}

impl ServiceState {
    /// Parses a lower-case state name: `ok`, `warning`, `critical` or `unknown`.
    pub fn from_lowercase_name(lower: &str) -> (r: Result<ServiceState, ServiceStateFromStrError>)
        ensures
            r == parsed_state(lower@),
    {
        proof {
            reveal_strlit("ok");
            reveal_strlit("warning");
            reveal_strlit("critical");
            reveal_strlit("unknown");
            assert("ok"@ =~= seq!['o', 'k']);
            assert("warning"@ =~= seq!['w', 'a', 'r', 'n', 'i', 'n', 'g']);
            assert("critical"@ =~= seq!['c', 'r', 'i', 't', 'i', 'c', 'a', 'l']);
            assert("unknown"@ =~= seq!['u', 'n', 'k', 'n', 'o', 'w', 'n']);
        }
        if same_text(lower, "ok") {
            Ok(ServiceState::Okay)
        } else if same_text(lower, "warning") {
            Ok(ServiceState::Warning)
        } else if same_text(lower, "critical") {
            Ok(ServiceState::Critical)
        } else if same_text(lower, "unknown") {
            Ok(ServiceState::Unknown)
        } else {
            Err(ServiceStateFromStrError)
        }
    }

    /// Parses a state name regardless of case.
    pub fn parse(s: &str) -> (r: Result<ServiceState, ServiceStateFromStrError>)
        ensures
            r == parsed_state(lowercase_of(s@)),
            all_ascii(s@) ==> r == parsed_state(s@.map_values(|c: char| ascii_lower(c))),
    {
        let lower = to_lowercase(s);
        ServiceState::from_lowercase_name(lower.as_str())
    }
}

impl core::str::FromStr for ServiceState {
    type Err = ServiceStateFromStrError;

    fn from_str(s: &str) -> (r: Result<ServiceState, ServiceStateFromStrError>)
        ensures
            r == parsed_state(lowercase_of(s@)),
            all_ascii(s@) ==> r == parsed_state(s@.map_values(|c: char| ascii_lower(c))),
    {
        ServiceState::parse(s)
    }
}

/// The default state is `Unknown`.
impl Default for ServiceState {
    fn default() -> (r: ServiceState)
        ensures
            r == ServiceState::Unknown,
    {
        ServiceState::Unknown
    }
}

/// Parsing takes the text form of every state, and its lower-case name, back to that state.
pub proof fn lemma_parse_round_trip(t: ServiceState)
    ensures
        all_ascii(label(t)),
        label(t).map_values(|c: char| ascii_lower(c)) == lower_label(t),
        all_ascii(lower_label(t)),
        lower_label(t).map_values(|c: char| ascii_lower(c)) == lower_label(t),
        parsed_state(lower_label(t)) == Ok::<ServiceState, ServiceStateFromStrError>(t),
{
    assert(label(t).map_values(|c: char| ascii_lower(c)) =~= lower_label(t));
    assert(lower_label(t).map_values(|c: char| ascii_lower(c)) =~= lower_label(t));
}

} // verus!
