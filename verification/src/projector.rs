//! From a registry response to its summary: which contact is named for
//! each role, and what the summary shows.

use crate::extract::{extraction, get_fn_value};
use crate::record::{
    contact_models, roles_of, text_of, texts_of, ContactModel, ContactRecord, RegistryResponse, ResponseModel,
    SummaryRecord, SummaryView,
};
use vstd::prelude::*;

verus! {

/// What has been found for one role so far: a name, and whether it is an
/// organization's.
pub type Finding = Option<(Seq<char>, bool)>;

/// The findings for the two roles that a summary reports.
pub struct Slots {
    pub registrant: Finding,
    pub administrative: Finding,
}

pub open spec fn finding_view(slot: Option<(String, bool)>) -> Finding {
    match slot {
        Some((name, org)) => Some((name@, org)),
        None => None,
    }
}

/// Whether a finding holds an organization's name.
pub open spec fn is_org(slot: Finding) -> bool {
    slot matches Some(f) && f.1
}

/// The name in a finding.
pub open spec fn name_of(slot: Finding) -> Option<Seq<char>> {
    match slot {
        Some(f) => Some(f.0),
        None => None,
    }
}

/// Which of two findings for one role is kept: the earlier one, unless there
/// is none yet, or it is no organization's and the later one is.
pub open spec fn preferred(kept: Finding, found: Finding) -> Finding {
    if kept is None || (!is_org(kept) && is_org(found)) {
        found
    } else {
        kept
    }
}

/// Whether a list of roles names `role`, letter for letter.
pub open spec fn role_listed(roles: Option<Seq<Seq<char>>>, role: Seq<char>) -> bool {
    match roles {
        Some(list) => list.contains(role),
        None => false,
    }
}

/// A role's finding after one more contact: a contact counts for the role
/// only if it lists the role and carries property groups.
pub open spec fn offered(kept: Finding, contact: ContactModel, role: Seq<char>) -> Finding {
    if role_listed(contact.roles, role) && contact.groups is Some {
        preferred(kept, extraction(contact.groups.unwrap()))
    } else {
        kept
    }
}

/// Both findings after one more contact.
pub open spec fn visit(slots: Slots, contact: ContactModel) -> Slots {
    Slots {
        registrant: offered(slots.registrant, contact, "registrant"@),
        administrative: offered(slots.administrative, contact, "administrative"@),
    }
}

/// Both findings after the contacts in `entities`, taken in order.
pub open spec fn scan(entities: Seq<ContactModel>) -> Slots
    decreases entities.len(),
{
    if entities.len() == 0 {
        Slots { registrant: None, administrative: None }
    } else {
        visit(scan(entities.drop_last()), entities.last())
    }
}

/// Both roles hold an organization's name: no later contact can change them.
pub open spec fn settled(slots: Slots) -> bool {
    is_org(slots.registrant) && is_org(slots.administrative)
}

/// A contact leaves settled findings as they are.
pub proof fn lemma_settled_is_final(slots: Slots, contact: ContactModel)
    requires
        settled(slots),
    ensures
        visit(slots, contact) == slots,
{
}

/// Once the findings are settled after the first `k` contacts, the contacts
/// after them change nothing.
pub proof fn lemma_settled_prefix_decides(entities: Seq<ContactModel>, k: int)
    requires
        0 <= k <= entities.len(),
        settled(scan(entities.take(k))),
    ensures
        scan(entities) == scan(entities.take(k)),
    decreases entities.len(),
{
    if k == entities.len() {
        assert(entities.take(k) == entities);
    } else {
        let shorter = entities.drop_last();
        assert(shorter.take(k) == entities.take(k));
        lemma_settled_prefix_decides(shorter, k);
        lemma_settled_is_final(scan(shorter), entities.last());
    }
}

/// Picks between the finding kept for a role and a later one.
pub fn prefer(kept: Option<(String, bool)>, found: Option<(String, bool)>) -> (r: Option<
    (String, bool),
>)
    ensures
        finding_view(r) == preferred(finding_view(kept), finding_view(found)),
{
    let replace = match (&kept, &found) {
        (None, _) => true,
        (Some(k), Some(f)) => !k.1 && f.1,
        (Some(_), None) => false,
    };
    if replace {
        found
    } else {
        kept
    }
}

/// Whether `roles` lists `role`.
pub fn has_role(roles: &Option<Vec<String>>, role: &str) -> (b: bool)
    ensures
        b == role_listed(roles_of(*roles), role@),
{
    match roles {
        Some(rs) => {
            let wanted = String::from_str(role);
            let mut k: usize = 0;
            while k < rs.len()
                invariant
                    k <= rs.len(),
                    *roles == Some(*rs),
                    wanted@ == role@,
                    forall|m: int| 0 <= m < k ==> (#[trigger] texts_of(rs@)[m]) != role@,
                decreases rs.len() - k,
            {
                if rs[k] == wanted {
                    assert(texts_of(rs@)[k as int] == role@);
                    return true;
                }
                k += 1;
            }
            false
        },
        None => false,
    }
}

/// Offers a contact's name to the finding kept for `role`.
pub fn offer(kept: Option<(String, bool)>, contact: &ContactRecord, role: &str) -> (r: Option<
    (String, bool),
>)
    ensures
        finding_view(r) == offered(finding_view(kept), contact@, role@),
{
    if has_role(&contact.roles, role) {
        if let Some(arr) = &contact.vcard_array {
            let found = get_fn_value(arr);
            return prefer(kept, found);
        }
    }
    kept
}

/// The outcome of going through a response's contacts.
#[derive(Debug, PartialEq, Eq)]
pub struct ScanResult {
    pub registrant: Option<(String, bool)>,
    pub administrative: Option<(String, bool)>,
    /// How many contacts were looked at.
    pub visited: usize,
}

impl ScanResult {
    pub open spec fn slots(self) -> Slots {
        Slots {
            registrant: finding_view(self.registrant),
            administrative: finding_view(self.administrative),
        }
    }
}

/// Goes through the contacts in order and keeps, for each of the two roles,
/// the preferred name. Stops after the first contact that leaves both roles
/// with an organization's name; the contacts after it are not looked at, and
/// could not have changed the result.
pub fn scan_entities(entities: &Vec<ContactRecord>) -> (r: ScanResult)
    ensures
        r.slots() == scan(contact_models(entities@)),
        r.visited <= entities.len(),
        r.slots() == scan(contact_models(entities@).take(r.visited as int)),
        forall|k: int|
            1 <= k < r.visited ==> !settled(#[trigger] scan(contact_models(entities@).take(k))),
        r.visited < entities.len() ==> settled(
            scan(contact_models(entities@).take(r.visited as int)),
        ),
{
    let ghost contacts = contact_models(entities@);
    let mut registrant: Option<(String, bool)> = None;
    let mut administrative: Option<(String, bool)> = None;
    let mut visited: usize = 0;
    let mut done = false;
    while visited < entities.len() && !done
        invariant
            visited <= entities.len(),
            contacts == contact_models(entities@),
            finding_view(registrant) == scan(contacts.take(visited as int)).registrant,
            finding_view(administrative) == scan(contacts.take(visited as int)).administrative,
            forall|k: int| 1 <= k < visited ==> !settled(#[trigger] scan(contacts.take(k))),
            done == (visited > 0 && settled(scan(contacts.take(visited as int)))),
        decreases entities.len() - visited,
    {
        let entity = &entities[visited];
        proof {
            assert(contacts.take(visited + 1).drop_last() == contacts.take(visited as int));
            assert(contacts.take(visited + 1).last() == entity@);
        }
        registrant = offer(registrant, entity, "registrant");
        administrative = offer(administrative, entity, "administrative");
        visited += 1;
        done = match (&registrant, &administrative) {
            (Some(r), Some(a)) => r.1 && a.1,
            _ => false,
        };
    }
    proof {
        if done {
            lemma_settled_prefix_decides(contacts, visited as int);
        } else {
            assert(contacts.take(visited as int) == contacts);
        }
    }
    ScanResult { registrant, administrative, visited }
}

/// The contacts that a response carries; none unless it is an
/// autonomous-system record with a list of them.
pub open spec fn contacts_of(response: ResponseModel) -> Seq<ContactModel> {
    match response {
        ResponseModel::Autnum(record) => match record.entities {
            Some(entities) => entities,
            None => Seq::empty(),
        },
        ResponseModel::Other => Seq::empty(),
    }
}

/// The handle that a summary shows for a response: the record's own, or the
/// placeholder where the record has none or is of another kind.
pub open spec fn handle_of(response: ResponseModel) -> Seq<char> {
    match response {
        ResponseModel::Autnum(record) => match record.handle {
            Some(handle) => handle,
            None => "N/A"@,
        },
        ResponseModel::Other => "N/A"@,
    }
}

/// The summary of a response that was fetched at `fetched_at`.
pub open spec fn summary_of(response: ResponseModel, fetched_at: Seq<char>) -> SummaryView {
    SummaryView {
        handle: handle_of(response),
        registrant: name_of(scan(contacts_of(response)).registrant),
        administrative: name_of(scan(contacts_of(response)).administrative),
        fetched_at,
    }
}

fn name_in(slot: Option<(String, bool)>) -> (r: Option<String>)
    ensures
        text_of(r) == name_of(finding_view(slot)),
{
    match slot {
        Some((name, _)) => Some(name),
        None => None,
    }
}

/// Builds the summary of a response, with the time of its fetch as given.
pub fn process_rdap_response(response: &RegistryResponse, fetched_at: String) -> (summary:
    SummaryRecord)
    ensures
        summary@ == summary_of(response@, fetched_at@),
{
    match response {
        RegistryResponse::Autnum(record) => {
            let handle = match &record.handle {
                Some(h) => h.clone(),
                None => String::from_str("N/A"),
            };
            let found = match &record.entities {
                Some(entities) => scan_entities(entities),
                None => ScanResult { registrant: None, administrative: None, visited: 0 },
            };
            SummaryRecord {
                handle,
                registrant: name_in(found.registrant),
                administrative: name_in(found.administrative),
                fetched_at,
            }
        },
        RegistryResponse::Other => SummaryRecord {
            handle: String::from_str("N/A"),
            registrant: None,
            administrative: None,
            fetched_at,
        },
    }
}

/// An organization's name replaces a name that is no organization's.
pub proof fn lemma_organization_wins(kept: Finding, found: Finding)
    requires
        kept is Some,
        !is_org(kept),
        is_org(found),
    ensures
        preferred(kept, found) == found,
{
}

/// Between two names that are both an organization's, or both not, and
/// whenever the earlier is an organization's, the earlier one is kept.
pub proof fn lemma_first_is_kept(kept: Finding, found: Finding)
    requires
        kept is Some,
        is_org(kept) || !is_org(found),
    ensures
        preferred(kept, found) == kept,
{
}

/// With two contacts for one role, the second is taken exactly if it is an
/// organization and the first is not; a first contact without a name gives
/// way to whatever the second has.
pub proof fn lemma_two_contacts(first: ContactModel, second: ContactModel)
    requires
        role_listed(first.roles, "registrant"@),
        role_listed(second.roles, "registrant"@),
        first.groups is Some,
        second.groups is Some,
    ensures
        ({
            let a = extraction(first.groups.unwrap());
            let b = extraction(second.groups.unwrap());
            scan(seq![first, second]).registrant == if a is None || (!is_org(a) && is_org(b)) {
                b
            } else {
                a
            }
        }),
{
    let both = seq![first, second];
    let one = both.drop_last();
    assert(one.drop_last() == Seq::<ContactModel>::empty());
    assert(one.last() == first);
    assert(both.last() == second);
    assert(scan(one.drop_last()).registrant is None);
    assert(scan(one) == visit(scan(one.drop_last()), first));
    assert(scan(both) == visit(scan(one), second));
}

/// A response of a kind that is not read is summarised with the placeholder
/// for its handle and without contacts.
pub proof fn lemma_other_kinds_are_blank(fetched_at: Seq<char>)
    ensures
        summary_of(ResponseModel::Other, fetched_at) == (SummaryView {
            handle: "N/A"@,
            registrant: None,
            administrative: None,
            fetched_at,
        }),
{
}

} // verus!
