//! Reads a contact's display name, and whether the contact is an
//! organization, out of its groups of property entries.

use crate::value::{lemma_array_model, models_of, Value, ValueModel};
use vstd::prelude::*;

verus! {

/// One contact property: its name and its value, both as text.
pub struct Property {
    pub name: Seq<char>,
    pub value: Seq<char>,
}

/// The property that an entry encodes: an entry is an array of exactly four
/// elements whose first (the name) and fourth (the value) are text; the
/// second and third are not looked at. Anything else encodes none.
pub open spec fn property_of(entry: ValueModel) -> Option<Property> {
    let parts = entry.items();
    if entry is Array && parts.len() == 4 && parts[0] is Text && parts[3] is Text {
        Some(Property { name: parts[0].text().unwrap(), value: parts[3].text().unwrap() })
    } else {
        None
    }
}

/// Whether an entry gives the display name.
pub open spec fn is_name_entry(entry: ValueModel) -> bool {
    property_of(entry) matches Some(p) && p.name == "fn"@
}

/// Whether an entry marks the contact as an organization.
pub open spec fn is_org_entry(entry: ValueModel) -> bool {
    property_of(entry) matches Some(p) && p.name == "kind"@ && p.value == "org"@
}

/// All entries of a contact's groups, one group after another. A group that
/// is not an array has no entries.
pub open spec fn entries(groups: Seq<ValueModel>) -> Seq<ValueModel>
    decreases groups.len(),
{
    if groups.len() == 0 {
        Seq::empty()
    } else {
        entries(groups.drop_last()) + groups.last().items()
    }
}

/// The value of the last name entry among `es`, if there is one.
pub open spec fn last_name(es: Seq<ValueModel>) -> Option<Seq<char>>
    decreases es.len(),
{
    if es.len() == 0 {
        None
    } else if is_name_entry(es.last()) {
        Some(property_of(es.last()).unwrap().value)
    } else {
        last_name(es.drop_last())
    }
}

/// Whether any entry among `es` marks an organization.
pub open spec fn has_org(es: Seq<ValueModel>) -> bool {
    exists|k: int| 0 <= k < es.len() && is_org_entry(#[trigger] es[k])
}

/// What a contact's groups say of its name: the last name given anywhere in
/// them, with whether any entry, before or after it, marks an organization.
/// Without a name entry there is no result.
pub open spec fn extraction(groups: Seq<ValueModel>) -> Option<(Seq<char>, bool)> {
    match last_name(entries(groups)) {
        Some(name) => Some((name, has_org(entries(groups)))),
        None => None,
    }
}

proof fn lemma_keys_differ()
    ensures
        "fn"@ != "kind"@,
{
    reveal_strlit("fn");
    reveal_strlit("kind");
    assert("fn"@.len() != "kind"@.len());
}

proof fn lemma_entries_step(groups: Seq<ValueModel>, i: int)
    requires
        0 <= i < groups.len(),
    ensures
        entries(groups.take(i + 1)) == entries(groups.take(i)) + groups[i].items(),
{
    assert(groups.take(i + 1).drop_last() == groups.take(i));
}

proof fn lemma_scan_push(es: Seq<ValueModel>, e: ValueModel)
    ensures
        last_name(es.push(e)) == if is_name_entry(e) {
            Some(property_of(e).unwrap().value)
        } else {
            last_name(es)
        },
        has_org(es.push(e)) == (has_org(es) || is_org_entry(e)),
{
    let pushed = es.push(e);
    assert(pushed.drop_last() == es);
    assert(pushed.last() == e);
    if has_org(es) {
        let k = choose|k: int| 0 <= k < es.len() && is_org_entry(#[trigger] es[k]);
        assert(is_org_entry(pushed[k]));
    }
    if is_org_entry(e) {
        assert(is_org_entry(pushed[es.len() as int]));
    }
    if has_org(pushed) {
        let k = choose|k: int| 0 <= k < pushed.len() && is_org_entry(#[trigger] pushed[k]);
        if k < es.len() {
            assert(is_org_entry(es[k]));
        }
    }
}

/// A name is found exactly where some entry gives one: entries that only
/// mark an organization, or give other properties, yield no result.
pub proof fn lemma_result_needs_name(groups: Seq<ValueModel>)
    ensures
        extraction(groups) is Some <==> exists|k: int|
            0 <= k < entries(groups).len() && is_name_entry(#[trigger] entries(groups)[k]),
{
    lemma_last_name_found(entries(groups));
}

/// The name found is the one that the last name entry gives, and the
/// organization mark counts wherever it stands, before that entry or after.
pub proof fn lemma_result_is_last_name(groups: Seq<ValueModel>)
    requires
        extraction(groups) is Some,
    ensures
        exists|k: int|
            {
                &&& 0 <= k < entries(groups).len()
                &&& is_name_entry(#[trigger] entries(groups)[k])
                &&& extraction(groups).unwrap().0 == property_of(entries(groups)[k]).unwrap().value
                &&& forall|later: int|
                    k < later < entries(groups).len() ==> !is_name_entry(
                        #[trigger] entries(groups)[later],
                    )
            },
        extraction(groups).unwrap().1 == has_org(entries(groups)),
{
    lemma_last_name_found(entries(groups));
}

proof fn lemma_last_name_found(es: Seq<ValueModel>)
    ensures
        last_name(es) is Some <==> exists|k: int| 0 <= k < es.len() && is_name_entry(#[trigger] es[k]),
        last_name(es) is Some ==> exists|k: int|
            {
                &&& 0 <= k < es.len()
                &&& is_name_entry(#[trigger] es[k])
                &&& last_name(es).unwrap() == property_of(es[k]).unwrap().value
                &&& forall|later: int| k < later < es.len() ==> !is_name_entry(#[trigger] es[later])
            },
    decreases es.len(),
{
    if es.len() > 0 {
        let n = es.len() - 1;
        let shorter = es.drop_last();
        lemma_last_name_found(shorter);
        if is_name_entry(es.last()) {
            assert(is_name_entry(es[n]));
        } else {
            if last_name(shorter) is Some {
                let k = choose|k: int|
                    {
                        &&& 0 <= k < shorter.len()
                        &&& is_name_entry(#[trigger] shorter[k])
                        &&& last_name(shorter).unwrap() == property_of(shorter[k]).unwrap().value
                        &&& forall|later: int|
                            k < later < shorter.len() ==> !is_name_entry(#[trigger] shorter[later])
                    };
                assert(shorter[k] == es[k]);
                assert forall|later: int| k < later < es.len() implies !is_name_entry(
                    #[trigger] es[later],
                ) by {
                    if later < n {
                        assert(shorter[later] == es[later]);
                    }
                }
                assert(is_name_entry(es[k]));
            }
            if exists|k: int| 0 <= k < es.len() && is_name_entry(#[trigger] es[k]) {
                let k = choose|k: int| 0 <= k < es.len() && is_name_entry(#[trigger] es[k]);
                assert(k < n);
                assert(is_name_entry(shorter[k]));
            }
        }
    }
}

/// Reads one entry: its name and its value, where it has the shape of a
/// property.
fn read_property(entry: &Value) -> (r: Option<(&String, &String)>)
    ensures
        match r {
            Some((name, value)) => property_of(entry@) == Some(
                Property { name: name@, value: value@ },
            ),
            None => property_of(entry@) is None,
        },
{
    if let Value::Array(parts) = entry {
        proof {
            lemma_array_model(*parts);
        }
        if parts.len() == 4 {
            if let (Value::Text(name), Value::Text(value)) = (&parts[0], &parts[3]) {
                assert(parts@[0]@ == ValueModel::Text(name@));
                assert(parts@[3]@ == ValueModel::Text(value@));
                return Some((name, value));
            }
            assert(!(parts@[0]@ is Text && parts@[3]@ is Text));
        }
    }
    None
}

/// Recovers a contact's display name and whether the contact is an
/// organization from its groups of property entries.
pub fn get_fn_value(arr: &Vec<Value>) -> (found: Option<(String, bool)>)
    ensures
        match found {
            Some((name, is_org)) => extraction(models_of(arr@)) == Some((name@, is_org)),
            None => extraction(models_of(arr@)) is None,
        },
{
    let name_key = String::from_str("fn");
    let kind_key = String::from_str("kind");
    let org_value = String::from_str("org");
    let mut fn_value: Option<String> = None;
    let mut is_org = false;
    let ghost groups = models_of(arr@);
    let ghost mut seen: Seq<ValueModel> = Seq::empty();
    let mut i: usize = 0;
    while i < arr.len()
        invariant
            i <= arr.len(),
            groups == models_of(arr@),
            name_key@ == "fn"@,
            kind_key@ == "kind"@,
            org_value@ == "org"@,
            seen == entries(groups.take(i as int)),
            match fn_value {
                Some(name) => last_name(seen) == Some(name@),
                None => last_name(seen) is None,
            },
            is_org == has_org(seen),
        decreases arr.len() - i,
    {
        proof {
            lemma_entries_step(groups, i as int);
        }
        if let Value::Array(inner_array) = &arr[i] {
            let ghost before = seen;
            let ghost inner = models_of(inner_array@);
            proof {
                lemma_array_model(*inner_array);
            }
            let mut j: usize = 0;
            while j < inner_array.len()
                invariant
                    j <= inner_array.len(),
                    inner == models_of(inner_array@),
                    name_key@ == "fn"@,
                    kind_key@ == "kind"@,
                    org_value@ == "org"@,
                    seen == before + inner.take(j as int),
                    match fn_value {
                        Some(name) => last_name(seen) == Some(name@),
                        None => last_name(seen) is None,
                    },
                    is_org == has_org(seen),
                decreases inner_array.len() - j,
            {
                let inner_item = &inner_array[j];
                proof {
                    lemma_keys_differ();
                    lemma_scan_push(seen, inner_item@);
                    assert(inner.take(j + 1) == inner.take(j as int).push(inner_item@));
                    assert(before + inner.take(j + 1) == seen.push(inner_item@));
                    seen = seen.push(inner_item@);
                }
                if let Some((key, value)) = read_property(inner_item) {
                    if *key == name_key {
                        fn_value = Some(value.clone());
                    } else if *key == kind_key && *value == org_value {
                        is_org = true;
                    }
                }
                j += 1;
            }
            proof {
                assert(inner.take(inner_array.len() as int) == inner);
            }
        } else {
            proof {
                assert(seen + groups[i as int].items() == seen);
            }
        }
        i += 1;
    }
    proof {
        assert(groups.take(arr.len() as int) == groups);
    }
    match fn_value {
        Some(value) => Some((value, is_org)),
        None => None,
    }
}

} // verus!
