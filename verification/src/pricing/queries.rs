//! Selection rules over rows of the pricing store.
//!
//! Each function takes the rows it is to choose from and says which one the
//! store's rules pick: the filter, the ordering, and the single row that wins.

use vstd::prelude::*;
use crate::pricing::models::{
    in_window, window_holds, Agreement, CatalogItem, ContentType, Price, Timestamp,
};
use crate::text::same_text;

verus! {

/// Which reference of an agreement a lookup goes by.
#[derive(Clone, Copy, Debug, PartialEq, Eq, Structural)]
pub enum AgreementSubject {
    /// The thing the agreement governs.
    ScopeRef,
    /// The first party of the agreement.
    PartyA,
}

/// A request for the agreement of one scope type about one record, in force at
/// one instant.
#[derive(Debug)]
pub struct AgreementQuery {
    pub scope_type: String,
    pub subject: AgreementSubject,
    pub content_type_id: i32,
    pub object_id: String,
    pub at: Timestamp,
}

/// What an [`AgreementQuery`] asks, with its texts as sequences of characters.
pub struct Asked {
    pub scope_type: Seq<char>,
    pub subject: AgreementSubject,
    pub content_type_id: i32,
    pub object_id: Seq<char>,
    pub at: Timestamp,
}

impl View for AgreementQuery {
    type V = Asked;

    open spec fn view(&self) -> Asked {
        Asked {
            scope_type: self.scope_type@,
            subject: self.subject,
            content_type_id: self.content_type_id,
            object_id: self.object_id@,
            at: self.at,
        }
    }
}

impl Asked {
    /// Whether `agreement` answers the query: it has the scope type, refers to
    /// the record by the chosen reference, and is active at the instant.
    pub open spec fn admits(self, agreement: Agreement) -> bool {
        &&& agreement.scope_type@ == self.scope_type
        &&& match self.subject {
            AgreementSubject::ScopeRef => agreement.scope_ref_content_type_id == Some(
                self.content_type_id,
            ) && agreement.scope_ref_id@ == self.object_id,
            AgreementSubject::PartyA => agreement.party_a_content_type_id == Some(
                self.content_type_id,
            ) && agreement.party_a_id@ == self.object_id,
        }
        &&& agreement.active_at(self.at)
    }

    /// The query for the agreement of `scope_type` that governs the record
    /// `scope_ref_id` of kind `scope_ref_content_type_id`.
    pub open spec fn by_scope(
        scope_type: Seq<char>,
        scope_ref_content_type_id: i32,
        scope_ref_id: Seq<char>,
        check_time: Timestamp,
    ) -> Asked {
        Asked {
            scope_type,
            subject: AgreementSubject::ScopeRef,
            content_type_id: scope_ref_content_type_id,
            object_id: scope_ref_id,
            at: check_time,
        }
    }

    /// The query for the gas-vendor agreement whose first party is the record
    /// `party_a_id` of kind `party_a_content_type_id`.
    pub open spec fn by_gas_buyer(
        party_a_content_type_id: i32,
        party_a_id: Seq<char>,
        check_time: Timestamp,
    ) -> Asked {
        Asked {
            scope_type: "gas_vendor_pricing"@,
            subject: AgreementSubject::PartyA,
            content_type_id: party_a_content_type_id,
            object_id: party_a_id,
            at: check_time,
        }
    }
}

impl AgreementQuery {
    /// Decides [`Asked::admits`].
    pub fn accepts(&self, agreement: &Agreement) -> (r: bool)
        ensures
            r == self@.admits(*agreement),
    {
        if !same_text(agreement.scope_type.as_str(), self.scope_type.as_str()) {
            return false;
        }
        let (content_type_id, object_id) = match self.subject {
            AgreementSubject::ScopeRef => (
                agreement.scope_ref_content_type_id,
                agreement.scope_ref_id.as_str(),
            ),
            AgreementSubject::PartyA => (
                agreement.party_a_content_type_id,
                agreement.party_a_id.as_str(),
            ),
        };
        let same_type = match content_type_id {
            Some(id) => id == self.content_type_id,
            None => false,
        };
        same_type && same_text(object_id, self.object_id.as_str()) && agreement.is_valid_at(
            self.at,
        )
    }
}

/// The index, among the first `n` rows, of the agreement that answers `query`
/// and started latest; of several that started at the same instant, the one
/// that comes first. `None` where none of them answers.
pub open spec fn latest_agreement(rows: Seq<Agreement>, query: Asked, n: int) -> Option<
    int,
>
    decreases n,
{
    if n <= 0 {
        None
    } else {
        let earlier = latest_agreement(rows, query, n - 1);
        if query.admits(rows[n - 1]) && (earlier matches Some(i) ==> rows[i].valid_from.before(
            rows[n - 1].valid_from,
        )) {
            Some(n - 1)
        } else {
            earlier
        }
    }
}

/// What [`latest_agreement`] picks is a row that answers the query, no row
/// that answers started later, and every row before it that answers started
/// earlier. Where it picks none, no row answers.
pub proof fn lemma_latest_agreement(rows: Seq<Agreement>, query: Asked, n: int)
    requires
        0 <= n <= rows.len(),
    ensures
        match latest_agreement(rows, query, n) {
            Some(i) => {
                &&& 0 <= i < n
                &&& query.admits(rows[i])
                &&& forall|j: int|
                    0 <= j < n && query.admits(#[trigger] rows[j])
                        ==> rows[j].valid_from.at_or_before(rows[i].valid_from)
                &&& forall|j: int|
                    0 <= j < i && query.admits(#[trigger] rows[j]) ==> rows[j].valid_from.before(
                        rows[i].valid_from,
                    )
            },
            None => forall|j: int| 0 <= j < n ==> !query.admits(#[trigger] rows[j]),
        },
    decreases n,
{
    if n > 0 {
        lemma_latest_agreement(rows, query, n - 1);
    }
}

/// The index of the agreement that answers `query`: of those that do, the one
/// that started latest.
pub fn find_agreement_index(rows: &[Agreement], query: &AgreementQuery) -> (r: Option<usize>)
    ensures
        match r {
            Some(i) => latest_agreement(rows@, query@, rows@.len() as int) == Some(i as int) && i
                < rows@.len(),
            None => latest_agreement(rows@, query@, rows@.len() as int).is_none(),
        },
{
    let mut best: Option<usize> = None;
    let mut i: usize = 0;
    while i < rows.len()
        invariant
            i <= rows@.len(),
            match best {
                Some(b) => latest_agreement(rows@, query@, i as int) == Some(b as int) && b < i,
                None => latest_agreement(rows@, query@, i as int).is_none(),
            },
        decreases rows@.len() - i,
    {
        if query.accepts(&rows[i]) {
            let later = match best {
                Some(b) => rows[b].valid_from.is_before(rows[i].valid_from),
                None => true,
            };
            if later {
                best = Some(i);
            }
        }
        i = i + 1;
    }
    best
}

/// Picks the agreement that answers `query`: of those that do, the one that
/// started latest.
pub fn find_agreement<'a>(rows: &'a [Agreement], query: &AgreementQuery) -> (r: Option<
    &'a Agreement,
>)
    ensures
        match r {
            Some(a) => latest_agreement(rows@, query@, rows@.len() as int) matches Some(i) && *a
                == rows@[i],
            None => latest_agreement(rows@, query@, rows@.len() as int).is_none(),
        },
{
    match find_agreement_index(rows, query) {
        Some(b) => Some(&rows[b]),
        None => None,
    }
}

impl AgreementQuery {
    /// The query for the agreement of `scope_type` that governs the record
    /// `scope_ref_id` of kind `scope_ref_content_type_id`.
    pub fn by_scope(
        scope_type: &str,
        scope_ref_content_type_id: i32,
        scope_ref_id: &str,
        check_time: Timestamp,
    ) -> (r: AgreementQuery)
        ensures
            r@ == Asked::by_scope(scope_type@, scope_ref_content_type_id, scope_ref_id@, check_time),
    {
        AgreementQuery {
            scope_type: scope_type.to_owned(),
            subject: AgreementSubject::ScopeRef,
            content_type_id: scope_ref_content_type_id,
            object_id: scope_ref_id.to_owned(),
            at: check_time,
        }
    }

    /// The query for the gas-vendor agreement whose first party is the record
    /// `party_a_id` of kind `party_a_content_type_id`.
    pub fn by_gas_buyer(party_a_content_type_id: i32, party_a_id: &str, check_time: Timestamp) -> (r:
        AgreementQuery)
        ensures
            r@ == Asked::by_gas_buyer(party_a_content_type_id, party_a_id@, check_time),
    {
        AgreementQuery {
            scope_type: "gas_vendor_pricing".to_owned(),
            subject: AgreementSubject::PartyA,
            content_type_id: party_a_content_type_id,
            object_id: party_a_id.to_owned(),
            at: check_time,
        }
    }
}

/// Finds the agreement of `scope_type` in force at `check_time` for the record
/// it governs: of the rows that match, the one that started latest.
pub fn find_vendor_agreement<'a>(
    rows: &'a [Agreement],
    scope_type: &str,
    scope_ref_content_type_id: i32,
    scope_ref_id: &str,
    check_time: Timestamp,
) -> (r: Option<&'a Agreement>)
    ensures
        ({
            let asked = Asked::by_scope(
                scope_type@,
                scope_ref_content_type_id,
                scope_ref_id@,
                check_time,
            );
            match r {
                Some(a) => latest_agreement(rows@, asked, rows@.len() as int) matches Some(i) && *a
                    == rows@[i],
                None => latest_agreement(rows@, asked, rows@.len() as int).is_none(),
            }
        }),
{
    let asked = AgreementQuery::by_scope(
        scope_type,
        scope_ref_content_type_id,
        scope_ref_id,
        check_time,
    );
    find_agreement(rows, &asked)
}

/// Finds the gas-vendor agreement in force at `check_time` whose first party
/// is the given record: of the rows that match, the one that started latest.
pub fn find_gas_vendor_agreement<'a>(
    rows: &'a [Agreement],
    party_a_content_type_id: i32,
    party_a_id: &str,
    check_time: Timestamp,
) -> (r: Option<&'a Agreement>)
    ensures
        ({
            let asked = Asked::by_gas_buyer(party_a_content_type_id, party_a_id@, check_time);
            match r {
                Some(a) => latest_agreement(rows@, asked, rows@.len() as int) matches Some(i) && *a
                    == rows@[i],
                None => latest_agreement(rows@, asked, rows@.len() as int).is_none(),
            }
        }),
{
    let asked = AgreementQuery::by_gas_buyer(party_a_content_type_id, party_a_id, check_time);
    find_agreement(rows, &asked)
}

/// The level at which a price rule applies.
#[derive(Clone, Copy, Debug, PartialEq, Eq, Structural)]
pub enum PriceScope {
    /// Rules set for one agreement.
    Agreement(u128),
    /// Rules set for one party and no agreement.
    Party(u128),
    /// Rules set for one organization and neither party nor agreement.
    Organization(u128),
    /// Rules set for nobody in particular.
    Global,
}

/// Whether a price rule is for `catalog_item_id`, applies at the level
/// `scope`, and is in force at `at`.
pub open spec fn price_admitted(
    price: Price,
    catalog_item_id: u128,
    scope: PriceScope,
    at: Timestamp,
) -> bool {
    &&& price.catalog_item_id == catalog_item_id
    &&& window_holds(price.valid_from, price.valid_to, at)
    &&& match scope {
        PriceScope::Agreement(id) => price.agreement_id == Some(id),
        PriceScope::Party(id) => price.party_id == Some(id) && price.agreement_id.is_none(),
        PriceScope::Organization(id) => price.organization_id == Some(id)
            && price.party_id.is_none() && price.agreement_id.is_none(),
        PriceScope::Global => price.organization_id.is_none() && price.party_id.is_none()
            && price.agreement_id.is_none(),
    }
}

/// Whether rule `a` comes before rule `b`: a higher priority wins, and of two
/// with the same priority the one that started later.
pub open spec fn outranks(a: Price, b: Price) -> bool {
    a.priority > b.priority || (a.priority == b.priority && b.valid_from.before(a.valid_from))
}

/// The index, among the first `n` rows, of the admitted rule that no other
/// admitted rule outranks; of several such, the one that comes first. `None`
/// where no rule is admitted.
pub open spec fn best_price(
    rows: Seq<Price>,
    catalog_item_id: u128,
    scope: PriceScope,
    at: Timestamp,
    n: int,
) -> Option<int>
    decreases n,
{
    if n <= 0 {
        None
    } else {
        let earlier = best_price(rows, catalog_item_id, scope, at, n - 1);
        if price_admitted(rows[n - 1], catalog_item_id, scope, at) && (earlier matches Some(i)
            ==> outranks(rows[n - 1], rows[i])) {
            Some(n - 1)
        } else {
            earlier
        }
    }
}

/// What [`best_price`] picks is an admitted rule, no admitted rule outranks
/// it, and it outranks every admitted rule before it. Where it picks none, no
/// rule is admitted.
pub proof fn lemma_best_price(
    rows: Seq<Price>,
    catalog_item_id: u128,
    scope: PriceScope,
    at: Timestamp,
    n: int,
)
    requires
        0 <= n <= rows.len(),
    ensures
        match best_price(rows, catalog_item_id, scope, at, n) {
            Some(i) => {
                &&& 0 <= i < n
                &&& price_admitted(rows[i], catalog_item_id, scope, at)
                &&& forall|j: int|
                    0 <= j < n && price_admitted(#[trigger] rows[j], catalog_item_id, scope, at)
                        ==> !outranks(rows[j], rows[i])
                &&& forall|j: int|
                    0 <= j < i && price_admitted(#[trigger] rows[j], catalog_item_id, scope, at)
                        ==> outranks(rows[i], rows[j])
            },
            None => forall|j: int|
                0 <= j < n ==> !price_admitted(#[trigger] rows[j], catalog_item_id, scope, at),
        },
    decreases n,
{
    if n > 0 {
        lemma_best_price(rows, catalog_item_id, scope, at, n - 1);
    }
}

/// Decides [`price_admitted`].
pub fn admits_price(price: &Price, catalog_item_id: u128, scope: PriceScope, at: Timestamp) -> (r:
    bool)
    ensures
        r == price_admitted(*price, catalog_item_id, scope, at),
{
    if price.catalog_item_id != catalog_item_id {
        return false;
    }
    if !in_window(price.valid_from, price.valid_to, at) {
        return false;
    }
    match scope {
        PriceScope::Agreement(id) => match price.agreement_id {
            Some(own) => own == id,
            None => false,
        },
        PriceScope::Party(id) => price.agreement_id.is_none() && match price.party_id {
            Some(own) => own == id,
            None => false,
        },
        PriceScope::Organization(id) => price.agreement_id.is_none() && price.party_id.is_none()
            && match price.organization_id {
            Some(own) => own == id,
            None => false,
        },
        PriceScope::Global => price.organization_id.is_none() && price.party_id.is_none()
            && price.agreement_id.is_none(),
    }
}

/// Picks the price rule for `catalog_item_id` at the level `scope` in force at
/// `check_time`: the one with the highest priority and, among those, the
/// latest start.
pub fn find_price<'a>(
    rows: &'a [Price],
    catalog_item_id: u128,
    scope: PriceScope,
    check_time: Timestamp,
) -> (r: Option<&'a Price>)
    ensures
        match r {
            Some(p) => best_price(
                rows@,
                catalog_item_id,
                scope,
                check_time,
                rows@.len() as int,
            ) matches Some(i) && *p == rows@[i],
            None => best_price(
                rows@,
                catalog_item_id,
                scope,
                check_time,
                rows@.len() as int,
            ).is_none(),
        },
{
    let mut best: Option<usize> = None;
    let mut i: usize = 0;
    while i < rows.len()
        invariant
            i <= rows@.len(),
            match best {
                Some(b) => best_price(rows@, catalog_item_id, scope, check_time, i as int) == Some(
                    b as int,
                ) && b < i,
                None => best_price(rows@, catalog_item_id, scope, check_time, i as int).is_none(),
            },
        decreases rows@.len() - i,
    {
        if admits_price(&rows[i], catalog_item_id, scope, check_time) {
            let better = match best {
                Some(b) => rows[i].priority > rows[b].priority || (rows[i].priority
                    == rows[b].priority && rows[b].valid_from.is_before(rows[i].valid_from)),
                None => true,
            };
            if better {
                best = Some(i);
            }
        }
        i = i + 1;
    }
    match best {
        Some(b) => Some(&rows[b]),
        None => None,
    }
}

/// The price rule set for the agreement `agreement_id`.
pub fn find_price_by_agreement<'a>(
    rows: &'a [Price],
    catalog_item_id: u128,
    agreement_id: u128,
    check_time: Timestamp,
) -> (r: Option<&'a Price>)
    ensures
        ({
            let pick = best_price(
                rows@,
                catalog_item_id,
                PriceScope::Agreement(agreement_id),
                check_time,
                rows@.len() as int,
            );
            match r {
                Some(p) => pick matches Some(i) && *p == rows@[i],
                None => pick.is_none(),
            }
        }),
{
    find_price(rows, catalog_item_id, PriceScope::Agreement(agreement_id), check_time)
}

/// The price rule set for the party `party_id` and no agreement.
pub fn find_price_by_party<'a>(
    rows: &'a [Price],
    catalog_item_id: u128,
    party_id: u128,
    check_time: Timestamp,
) -> (r: Option<&'a Price>)
    ensures
        ({
            let pick = best_price(
                rows@,
                catalog_item_id,
                PriceScope::Party(party_id),
                check_time,
                rows@.len() as int,
            );
            match r {
                Some(p) => pick matches Some(i) && *p == rows@[i],
                None => pick.is_none(),
            }
        }),
{
    find_price(rows, catalog_item_id, PriceScope::Party(party_id), check_time)
}

/// The price rule set for the organization `organization_id` and neither
/// party nor agreement.
pub fn find_price_by_organization<'a>(
    rows: &'a [Price],
    catalog_item_id: u128,
    organization_id: u128,
    check_time: Timestamp,
) -> (r: Option<&'a Price>)
    ensures
        ({
            let pick = best_price(
                rows@,
                catalog_item_id,
                PriceScope::Organization(organization_id),
                check_time,
                rows@.len() as int,
            );
            match r {
                Some(p) => pick matches Some(i) && *p == rows@[i],
                None => pick.is_none(),
            }
        }),
{
    find_price(rows, catalog_item_id, PriceScope::Organization(organization_id), check_time)
}

/// The price rule set for nobody in particular.
pub fn find_global_price<'a>(rows: &'a [Price], catalog_item_id: u128, check_time: Timestamp) -> (r:
    Option<&'a Price>)
    ensures
        ({
            let pick = best_price(
                rows@,
                catalog_item_id,
                PriceScope::Global,
                check_time,
                rows@.len() as int,
            );
            match r {
                Some(p) => pick matches Some(i) && *p == rows@[i],
                None => pick.is_none(),
            }
        }),
{
    find_price(rows, catalog_item_id, PriceScope::Global, check_time)
}

/// The index of the first content type, at or after `from`, with the given
/// application label and model name.
pub open spec fn content_type_from(
    rows: Seq<ContentType>,
    app_label: Seq<char>,
    model: Seq<char>,
    from: int,
) -> Option<int>
    decreases rows.len() - from,
{
    if from < 0 || from >= rows.len() {
        None
    } else if rows[from].app_label@ == app_label && rows[from].model@ == model {
        Some(from)
    } else {
        content_type_from(rows, app_label, model, from + 1)
    }
}

/// The content type of an (application, model) pair, where the rows hold one.
pub fn get_content_type<'a>(rows: &'a [ContentType], app_label: &str, model: &str) -> (r: Option<
    &'a ContentType,
>)
    ensures
        match r {
            Some(found) => content_type_from(rows@, app_label@, model@, 0) matches Some(i)
                && *found == rows@[i],
            None => content_type_from(rows@, app_label@, model@, 0).is_none(),
        },
{
    let mut i: usize = 0;
    while i < rows.len()
        invariant
            i <= rows@.len(),
            content_type_from(rows@, app_label@, model@, 0) == content_type_from(
                rows@,
                app_label@,
                model@,
                i as int,
            ),
        decreases rows@.len() - i,
    {
        if same_text(rows[i].app_label.as_str(), app_label) && same_text(
            rows[i].model.as_str(),
            model,
        ) {
            return Some(&rows[i]);
        }
        i = i + 1;
    }
    None
}

/// The integer that stands for an (application, model) pair.
pub fn get_content_type_id(rows: &[ContentType], app_label: &str, model: &str) -> (r: Option<i32>)
    ensures
        match r {
            Some(id) => content_type_from(rows@, app_label@, model@, 0) matches Some(i) && id
                == rows@[i].id,
            None => content_type_from(rows@, app_label@, model@, 0).is_none(),
        },
{
    match get_content_type(rows, app_label, model) {
        Some(found) => Some(found.id),
        None => None,
    }
}

/// Whether a catalog item can be sold under the name `display_name`: it
/// carries the name, is active, and has not been deleted.
pub open spec fn item_offered(item: CatalogItem, display_name: Seq<char>) -> bool {
    item.display_name@ == display_name && item.active && item.deleted_at.is_none()
}

/// The index of the first offered item, at or after `from`, with the name.
pub open spec fn catalog_item_from(rows: Seq<CatalogItem>, display_name: Seq<char>, from: int) -> Option<
    int,
>
    decreases rows.len() - from,
{
    if from < 0 || from >= rows.len() {
        None
    } else if item_offered(rows[from], display_name) {
        Some(from)
    } else {
        catalog_item_from(rows, display_name, from + 1)
    }
}

/// The catalog item sold under `display_name`, where the rows hold one.
pub fn get_catalog_item_by_name<'a>(rows: &'a [CatalogItem], display_name: &str) -> (r: Option<
    &'a CatalogItem,
>)
    ensures
        match r {
            Some(found) => catalog_item_from(rows@, display_name@, 0) matches Some(i) && *found
                == rows@[i],
            None => catalog_item_from(rows@, display_name@, 0).is_none(),
        },
{
    let mut i: usize = 0;
    while i < rows.len()
        invariant
            i <= rows@.len(),
            catalog_item_from(rows@, display_name@, 0) == catalog_item_from(
                rows@,
                display_name@,
                i as int,
            ),
        decreases rows@.len() - i,
    {
        if same_text(rows[i].display_name.as_str(), display_name) && rows[i].active
            && rows[i].deleted_at.is_none() {
            return Some(&rows[i]);
        }
        i = i + 1;
    }
    None
}

/// Whether an agreement is one the warm-up loads: a vendor or gas-vendor
/// pricing agreement that is active at `now`.
pub open spec fn vendor_agreement_active(agreement: Agreement, now: Timestamp) -> bool {
    (agreement.scope_type@ == "vendor_pricing"@ || agreement.scope_type@ == "gas_vendor_pricing"@)
        && agreement.active_at(now)
}

/// The indices, among the first `n` rows, of the agreements the warm-up
/// loads, in the order of the rows.
pub open spec fn active_vendor_rows(rows: Seq<Agreement>, now: Timestamp, n: int) -> Seq<int>
    decreases n,
{
    if n <= 0 {
        Seq::empty()
    } else if vendor_agreement_active(rows[n - 1], now) {
        active_vendor_rows(rows, now, n - 1).push(n - 1)
    } else {
        active_vendor_rows(rows, now, n - 1)
    }
}

/// Decides [`vendor_agreement_active`].
pub fn is_active_vendor_agreement(agreement: &Agreement, now: Timestamp) -> (r: bool)
    ensures
        r == vendor_agreement_active(*agreement, now),
{
    (same_text(agreement.scope_type.as_str(), "vendor_pricing") || same_text(
        agreement.scope_type.as_str(),
        "gas_vendor_pricing",
    )) && agreement.is_valid_at(now)
}

/// The vendor and gas-vendor pricing agreements that are active at `now`, in
/// the order of the rows.
pub fn get_active_vendor_agreements<'a>(rows: &'a [Agreement], now: Timestamp) -> (r: Vec<
    &'a Agreement,
>)
    ensures
        r@.len() == active_vendor_rows(rows@, now, rows@.len() as int).len(),
        forall|k: int|
            0 <= k < r@.len() ==> {
                let i = #[trigger] active_vendor_rows(rows@, now, rows@.len() as int)[k];
                0 <= i < rows@.len() && *r@[k] == rows@[i]
            },
{
    let mut found: Vec<&Agreement> = Vec::new();
    let mut i: usize = 0;
    while i < rows.len()
        invariant
            i <= rows@.len(),
            found@.len() == active_vendor_rows(rows@, now, i as int).len(),
            forall|k: int|
                0 <= k < found@.len() ==> {
                    let j = #[trigger] active_vendor_rows(rows@, now, i as int)[k];
                    0 <= j < i && *found@[k] == rows@[j]
                },
        decreases rows@.len() - i,
    {
        if is_active_vendor_agreement(&rows[i], now) {
            found.push(&rows[i]);
        }
        i = i + 1;
    }
    found
}

} // verus!
