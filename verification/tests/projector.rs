use asn_lookup::projector::{has_role, offer, prefer, process_rdap_response, scan_entities};
use asn_lookup::record::{Autnum, ContactRecord, RegistryResponse, SummaryRecord};
use asn_lookup::value::Value;

fn word(s: &str) -> Value {
    Value::Text(s.to_string())
}

fn property(name: &str, value: &str) -> Value {
    Value::Array(vec![word(name), Value::Object(vec![]), word("text"), word(value)])
}

fn contact(roles: &[&str], name: Option<&str>, org: bool) -> ContactRecord {
    let mut entries = vec![property("version", "4.0")];
    if let Some(n) = name {
        entries.push(property("fn", n));
    }
    if org {
        entries.push(property("kind", "org"));
    }
    ContactRecord {
        roles: Some(roles.iter().map(|r| r.to_string()).collect()),
        vcard_array: Some(vec![word("vcard"), Value::Array(entries)]),
    }
}

fn autnum(handle: Option<&str>, entities: Option<Vec<ContactRecord>>) -> RegistryResponse {
    RegistryResponse::Autnum(Autnum { handle: handle.map(|h| h.to_string()), entities })
}

fn found(name: &str, org: bool) -> Option<(String, bool)> {
    Some((name.to_string(), org))
}

#[test]
fn organization_wins_over_earlier_person() {
    let entities =
        vec![contact(&["registrant"], Some("A"), false), contact(&["registrant"], Some("B"), true)];
    let r = scan_entities(&entities);
    assert_eq!(r.registrant, found("B", true));
    assert_eq!(r.administrative, None);
    assert_eq!(r.visited, 2);
}

#[test]
fn first_person_is_kept_among_persons() {
    let entities =
        vec![contact(&["registrant"], Some("A"), false), contact(&["registrant"], Some("B"), false)];
    let r = scan_entities(&entities);
    assert_eq!(r.registrant, found("A", false));
}

#[test]
fn first_organization_is_kept_among_organizations() {
    let entities =
        vec![contact(&["registrant"], Some("A"), true), contact(&["registrant"], Some("B"), true)];
    assert_eq!(scan_entities(&entities).registrant, found("A", true));
}

#[test]
fn organization_is_kept_over_later_person() {
    let entities =
        vec![contact(&["registrant"], Some("A"), true), contact(&["registrant"], Some("B"), false)];
    assert_eq!(scan_entities(&entities).registrant, found("A", true));
}

#[test]
fn contact_without_name_gives_way() {
    let entities =
        vec![contact(&["registrant"], None, true), contact(&["registrant"], Some("B"), false)];
    assert_eq!(scan_entities(&entities).registrant, found("B", false));
    let entities =
        vec![contact(&["registrant"], Some("A"), false), contact(&["registrant"], None, true)];
    assert_eq!(scan_entities(&entities).registrant, found("A", false));
}

#[test]
fn prefer_picks_by_rule() {
    assert_eq!(prefer(None, None), None);
    assert_eq!(prefer(None, found("B", false)), found("B", false));
    assert_eq!(prefer(found("A", false), None), found("A", false));
    assert_eq!(prefer(found("A", false), found("B", false)), found("A", false));
    assert_eq!(prefer(found("A", false), found("B", true)), found("B", true));
    assert_eq!(prefer(found("A", true), found("B", false)), found("A", true));
    assert_eq!(prefer(found("A", true), found("B", true)), found("A", true));
    assert_eq!(prefer(found("A", true), None), found("A", true));
}

#[test]
fn roles_are_matched_letter_for_letter() {
    let roles = Some(vec!["technical".to_string(), "registrant".to_string()]);
    assert!(has_role(&roles, "registrant"));
    assert!(has_role(&roles, "technical"));
    assert!(!has_role(&roles, "Registrant"));
    assert!(!has_role(&roles, "registrant "));
    assert!(!has_role(&roles, "administrative"));
    assert!(!has_role(&Some(vec![]), "registrant"));
    assert!(!has_role(&None, "registrant"));
}

#[test]
fn offer_needs_role_and_properties() {
    let named = contact(&["registrant"], Some("A"), true);
    assert_eq!(offer(None, &named, "registrant"), found("A", true));
    assert_eq!(offer(None, &named, "administrative"), None);
    let bare = ContactRecord { roles: Some(vec!["registrant".to_string()]), vcard_array: None };
    assert_eq!(offer(found("K", false), &bare, "registrant"), found("K", false));
    let no_roles = ContactRecord { roles: None, vcard_array: named.vcard_array };
    assert_eq!(offer(None, &no_roles, "registrant"), None);
}

#[test]
fn one_contact_can_fill_both_roles() {
    let entities = vec![contact(&["administrative", "registrant"], Some("Both"), false)];
    let r = scan_entities(&entities);
    assert_eq!(r.registrant, found("Both", false));
    assert_eq!(r.administrative, found("Both", false));
    assert_eq!(r.visited, 1);
}

#[test]
fn scan_stops_once_both_roles_hold_organizations() {
    let entities = vec![
        contact(&["registrant"], Some("R"), true),
        contact(&["technical"], Some("T"), true),
        contact(&["administrative"], Some("A"), true),
        contact(&["registrant"], Some("Late R"), true),
        contact(&["administrative"], Some("Late A"), true),
    ];
    let r = scan_entities(&entities);
    assert_eq!(r.visited, 3);
    assert_eq!(r.registrant, found("R", true));
    assert_eq!(r.administrative, found("A", true));
}

#[test]
fn scan_stops_after_first_contact_that_settles_both() {
    let entities = vec![
        contact(&["registrant", "administrative"], Some("Org"), true),
        contact(&["registrant"], Some("Other"), true),
        contact(&["administrative"], Some("Another"), false),
    ];
    let r = scan_entities(&entities);
    assert_eq!(r.visited, 1);
    assert_eq!(r.registrant, found("Org", true));
    assert_eq!(r.administrative, found("Org", true));
}

#[test]
fn scan_goes_to_the_end_while_a_role_is_open() {
    let entities = vec![
        contact(&["registrant"], Some("R"), true),
        contact(&["administrative"], Some("A"), false),
        contact(&["technical"], Some("T"), true),
    ];
    let r = scan_entities(&entities);
    assert_eq!(r.visited, 3);
    assert_eq!(r.registrant, found("R", true));
    assert_eq!(r.administrative, found("A", false));
    let none = scan_entities(&vec![]);
    assert_eq!(none.visited, 0);
    assert_eq!(none.registrant, None);
    assert_eq!(none.administrative, None);
}

#[test]
fn other_kinds_get_placeholder_and_no_contacts() {
    let s = process_rdap_response(&RegistryResponse::Other, "2024-01-02T03:04:05+00:00".to_string());
    assert_eq!(
        s,
        SummaryRecord {
            handle: "N/A".to_string(),
            registrant: None,
            administrative: None,
            fetched_at: "2024-01-02T03:04:05+00:00".to_string(),
        }
    );
}

#[test]
fn missing_handle_gets_placeholder() {
    let response = autnum(None, Some(vec![contact(&["administrative"], Some("Admin"), false)]));
    let s = process_rdap_response(&response, "t".to_string());
    assert_eq!(s.handle, "N/A");
    assert_eq!(s.registrant, None);
    assert_eq!(s.administrative, Some("Admin".to_string()));
    assert_eq!(s.fetched_at, "t");
}

#[test]
fn missing_contact_list_is_an_empty_one() {
    let s = process_rdap_response(&autnum(Some("AS1"), None), "t".to_string());
    assert_eq!(s.handle, "AS1");
    assert_eq!(s.registrant, None);
    assert_eq!(s.administrative, None);
}

#[test]
fn summary_names_both_roles() {
    let response = autnum(
        Some("AS64500"),
        Some(vec![
            contact(&["abuse"], Some("Abuse Desk"), true),
            contact(&["administrative"], Some("Jane Doe"), false),
            contact(&["registrant"], Some("Jane Doe"), false),
            contact(&["registrant", "administrative"], Some("Example Org"), true),
        ]),
    );
    let s = process_rdap_response(&response, "2024-05-06T07:08:09.123456+00:00".to_string());
    assert_eq!(
        s,
        SummaryRecord {
            handle: "AS64500".to_string(),
            registrant: Some("Example Org".to_string()),
            administrative: Some("Example Org".to_string()),
            fetched_at: "2024-05-06T07:08:09.123456+00:00".to_string(),
        }
    );
}
