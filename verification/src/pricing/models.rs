//! Records of the pricing store, as plain values.

use vstd::prelude::*;
use crate::pricing::amount::{parsed, Amount, Dec};
use crate::text::{lowercase_text, same_text, to_lowercase};

verus! {

/// A point in time: whole seconds since the Unix epoch and the nanoseconds
/// past that second. Points are ordered by seconds, then by nanoseconds.
#[derive(Clone, Copy, Debug, PartialEq, Eq, Structural)]
pub struct Timestamp {
    pub secs: i64,
    pub nanos: u32,
}

impl Timestamp {
    /// Whether `self` is strictly earlier than `other`.
    pub open spec fn before(self, other: Timestamp) -> bool {
        self.secs < other.secs || (self.secs == other.secs && self.nanos < other.nanos)
    }

    /// Whether `self` is `other` or earlier.
    pub open spec fn at_or_before(self, other: Timestamp) -> bool {
        self.secs < other.secs || (self.secs == other.secs && self.nanos <= other.nanos)
    }

    pub fn new(secs: i64, nanos: u32) -> (r: Timestamp)
        ensures
            r == (Timestamp { secs, nanos }),
    {
        Timestamp { secs, nanos }
    }

    #[verifier::when_used_as_spec(before)]
    pub fn is_before(self, other: Timestamp) -> (r: bool)
        ensures
            r == self.before(other),
    {
        self.secs < other.secs || (self.secs == other.secs && self.nanos < other.nanos)
    }

    #[verifier::when_used_as_spec(at_or_before)]
    pub fn is_at_or_before(self, other: Timestamp) -> (r: bool)
        ensures
            r == self.at_or_before(other),
    {
        self.secs < other.secs || (self.secs == other.secs && self.nanos <= other.nanos)
    }

    /// The current time, read from the system clock by `chrono`'s `Utc::now`.
    /// Nothing is promised of the reading.
    #[verifier::external_body]
    pub(crate) fn now() -> Timestamp {
        let t = chrono::Utc::now();
        Timestamp { secs: t.timestamp(), nanos: t.timestamp_subsec_nanos() }
    }
}

/// Whether a validity window that opens at `from` and, where `to` is set,
/// closes at `to` holds the instant `at`. The window is half open: it holds
/// its opening instant and not its closing one.
pub open spec fn window_holds(from: Timestamp, to: Option<Timestamp>, at: Timestamp) -> bool {
    from.at_or_before(at) && match to {
        Some(end) => at.before(end),
        None => true,
    }
}

/// Decides [`window_holds`].
pub fn in_window(from: Timestamp, to: Option<Timestamp>, at: Timestamp) -> (r: bool)
    ensures
        r == window_holds(from, to, at),
{
    from.is_at_or_before(at) && match to {
        Some(end) => at.is_before(end),
        None => true,
    }
}

/// A node of a terms document: a tree of keyed values whose shape depends on
/// what the agreement governs. A number written with a fraction or an exponent
/// arrives as the decimal it denotes.
#[derive(Debug)]
pub enum TermValue {
    Null,
    Bool(bool),
    Integer(i64),
    Decimal(Amount),
    Text(String),
    List(Vec<TermValue>),
    Object(Vec<TermEntry>),
}

/// One keyed value of an object in a terms document.
#[derive(Debug)]
pub struct TermEntry {
    pub key: String,
    pub value: TermValue,
}

/// The value of the first entry at or after `from` whose key is `key`.
pub open spec fn entry_from(entries: Seq<TermEntry>, key: Seq<char>, from: int) -> Option<
    TermValue,
>
    decreases entries.len() - from,
{
    if from < 0 || from >= entries.len() {
        None
    } else if entries[from].key@ == key {
        Some(entries[from].value)
    } else {
        entry_from(entries, key, from + 1)
    }
}

/// The value of the first entry at or after `from` whose key, lower-cased, is
/// `lowered`.
pub open spec fn entry_ignoring_case_from(
    entries: Seq<TermEntry>,
    lowered: Seq<char>,
    from: int,
) -> Option<TermValue>
    decreases entries.len() - from,
{
    if from < 0 || from >= entries.len() {
        None
    } else if lowercase_text(entries[from].key@) == lowered {
        Some(entries[from].value)
    } else {
        entry_ignoring_case_from(entries, lowered, from + 1)
    }
}

impl TermValue {
    /// The value under `key` where `self` is an object that has the key: that
    /// of the first entry so keyed. Anything else has no fields.
    pub open spec fn field(self, key: Seq<char>) -> Option<TermValue> {
        match self {
            TermValue::Object(entries) => entry_from(entries@, key, 0),
            _ => None,
        }
    }

    /// The value under the first key that differs from `key` in letter case
    /// at most, where `self` is an object that has such a key.
    pub open spec fn field_ignoring_case(self, key: Seq<char>) -> Option<TermValue> {
        match self {
            TermValue::Object(entries) => entry_ignoring_case_from(
                entries@,
                lowercase_text(key),
                0,
            ),
            _ => None,
        }
    }

    /// The amount that a value spells: a text is read as a decimal number, an
    /// integer stands for itself, a decimal is taken as it is. Nothing else is
    /// an amount.
    pub open spec fn amount(self) -> Option<Dec> {
        match self {
            TermValue::Text(s) => parsed(s@),
            TermValue::Integer(n) => Some(Dec::whole(n as int)),
            TermValue::Decimal(a) => Some(a@),
            _ => None,
        }
    }

    /// The integer that a value holds, where it is an integer.
    pub open spec fn integer(self) -> Option<i64> {
        match self {
            TermValue::Integer(n) => Some(n),
            _ => None,
        }
    }

    /// The text that a value holds, where it is a text.
    pub open spec fn text(self) -> Option<Seq<char>> {
        match self {
            TermValue::Text(s) => Some(s@),
            _ => None,
        }
    }

    /// Looks up a field of an object.
    pub fn get(&self, key: &str) -> (r: Option<&TermValue>)
        ensures
            match r {
                Some(v) => self.field(key@) == Some(*v),
                None => self.field(key@).is_none(),
            },
    {
        match self {
            TermValue::Object(entries) => {
                let mut i: usize = 0;
                while i < entries.len()
                    invariant
                        i <= entries@.len(),
                        self.field(key@) == entry_from(entries@, key@, 0),
                        entry_from(entries@, key@, 0) == entry_from(entries@, key@, i as int),
                    decreases entries@.len() - i,
                {
                    assert(entry_from(entries@, key@, i as int) == if entries@[i as int].key@
                        == key@ {
                        Some(entries@[i as int].value)
                    } else {
                        entry_from(entries@, key@, i + 1)
                    });
                    if same_text(entries[i].key.as_str(), key) {
                        return Some(&entries[i].value);
                    }
                    i = i + 1;
                }
                None
            },
            _ => None,
        }
    }

    /// Looks up a field of an object without regard to letter case.
    pub fn get_ignoring_case(&self, key: &str) -> (r: Option<&TermValue>)
        ensures
            match r {
                Some(v) => self.field_ignoring_case(key@) == Some(*v),
                None => self.field_ignoring_case(key@).is_none(),
            },
    {
        match self {
            TermValue::Object(entries) => {
                let lowered = to_lowercase(key);
                let mut i: usize = 0;
                while i < entries.len()
                    invariant
                        i <= entries@.len(),
                        lowered@ == lowercase_text(key@),
                        self.field_ignoring_case(key@) == entry_ignoring_case_from(
                            entries@,
                            lowered@,
                            0,
                        ),
                        entry_ignoring_case_from(entries@, lowered@, 0)
                            == entry_ignoring_case_from(entries@, lowered@, i as int),
                    decreases entries@.len() - i,
                {
                    assert(entry_ignoring_case_from(entries@, lowered@, i as int)
                        == if lowercase_text(entries@[i as int].key@) == lowered@ {
                        Some(entries@[i as int].value)
                    } else {
                        entry_ignoring_case_from(entries@, lowered@, i + 1)
                    });
                    let own = to_lowercase(entries[i].key.as_str());
                    if same_text(own.as_str(), lowered.as_str()) {
                        return Some(&entries[i].value);
                    }
                    i = i + 1;
                }
                None
            },
            _ => None,
        }
    }

    /// Reads a numeric field in either of its encodings, a decimal-valued text
    /// or a number.
    pub fn as_amount(&self) -> (r: Option<Amount>)
        ensures
            match r {
                Some(a) => self.amount() == Some(a@),
                None => self.amount().is_none(),
            },
    {
        match self {
            TermValue::Text(s) => Amount::parse(s.as_str()),
            TermValue::Integer(n) => Some(Amount::from_i64(*n)),
            TermValue::Decimal(a) => Some(*a),
            _ => None,
        }
    }

    /// Reads an integer field.
    pub fn as_i64(&self) -> (r: Option<i64>)
        ensures
            r == self.integer(),
    {
        match self {
            TermValue::Integer(n) => Some(*n),
            _ => None,
        }
    }

    /// Reads a text field.
    pub fn as_str(&self) -> (r: Option<&str>)
        ensures
            match r {
                Some(s) => self.text() == Some(s@),
                None => self.text().is_none(),
            },
    {
        match self {
            TermValue::Text(s) => Some(s.as_str()),
            _ => None,
        }
    }
}

/// An agreement between two parties on what one charges the other.
#[derive(Debug)]
pub struct Agreement {
    pub id: u128,
    pub party_a_content_type_id: Option<i32>,
    pub party_a_id: String,
    pub party_b_content_type_id: Option<i32>,
    pub party_b_id: String,
    pub scope_type: String,
    pub scope_ref_content_type_id: Option<i32>,
    pub scope_ref_id: String,
    pub terms: TermValue,
    pub valid_from: Timestamp,
    pub valid_to: Option<Timestamp>,
    pub current_version: i32,
    pub deleted_at: Option<Timestamp>,
}

impl Agreement {
    /// An agreement is active at an instant when it has not been deleted and
    /// its validity window holds the instant.
    pub open spec fn active_at(self, at: Timestamp) -> bool {
        self.deleted_at.is_none() && window_holds(self.valid_from, self.valid_to, at)
    }

    /// Whether the agreement is active at `check_time`.
    pub fn is_valid_at(&self, check_time: Timestamp) -> (r: bool)
        ensures
            r == self.active_at(check_time),
    {
        self.deleted_at.is_none() && in_window(self.valid_from, self.valid_to, check_time)
    }
}

/// A deleted agreement is active at no instant, whatever its window. One that
/// is not deleted is inactive before its window opens, active at the instant
/// it opens provided the window has not closed by then, and inactive at the
/// instant it closes.
pub proof fn lemma_agreement_window(agreement: Agreement, at: Timestamp)
    ensures
        agreement.deleted_at.is_some() ==> !agreement.active_at(at),
        at.before(agreement.valid_from) ==> !agreement.active_at(at),
        agreement.deleted_at.is_none() && (agreement.valid_to matches Some(end)
            ==> agreement.valid_from.before(end)) ==> agreement.active_at(agreement.valid_from),
        agreement.valid_to == Some(at) ==> !agreement.active_at(at),
{
}

/// A price rule for a catalog item. At most one of the three scopes is meant
/// to be set; a rule with none set is global.
#[derive(Clone, Debug)]
pub struct Price {
    pub id: u128,
    pub catalog_item_id: u128,
    pub amount: Amount,
    pub currency: String,
    pub cost_amount: Option<Amount>,
    pub cost_currency: Option<String>,
    pub organization_id: Option<u128>,
    pub party_id: Option<u128>,
    pub agreement_id: Option<u128>,
    pub valid_from: Timestamp,
    pub valid_to: Option<Timestamp>,
    pub priority: i32,
}

/// An item of the catalog.
#[derive(Clone, Debug)]
pub struct CatalogItem {
    pub id: u128,
    pub display_name: String,
    pub active: bool,
    pub deleted_at: Option<Timestamp>,
}

/// A dive site.
#[derive(Clone, Debug)]
pub struct DiveSite {
    pub id: u128,
    pub name: String,
    pub deleted_at: Option<Timestamp>,
}

/// An organization, such as a dive shop.
#[derive(Clone, Debug)]
pub struct Organization {
    pub id: u128,
    pub name: String,
    pub deleted_at: Option<Timestamp>,
}

/// The small integer that stands for an (application, model) pair in
/// references to records of more than one kind.
#[derive(Clone, Debug)]
pub struct ContentType {
    pub id: i32,
    pub app_label: String,
    pub model: String,
}

} // verus!
