//! The records that the library works on, and what each stands for.

use crate::value::{models_of, Value, ValueModel};
use vstd::prelude::*;

verus! {

/// A contact embedded in a registry response: the roles it plays for the
/// resource, and its name and kind as groups of property entries.
#[derive(Debug, PartialEq, Eq)]
pub struct ContactRecord {
    pub roles: Option<Vec<String>>,
    pub vcard_array: Option<Vec<Value>>,
}

/// The fields of an autonomous-system record that a summary is made from.
#[derive(Debug, PartialEq, Eq)]
pub struct Autnum {
    pub handle: Option<String>,
    pub entities: Option<Vec<ContactRecord>>,
}

/// A registry's answer, by kind. Only autonomous-system records are read;
/// every other kind is `Other`.
#[derive(Debug, PartialEq, Eq)]
pub enum RegistryResponse {
    Autnum(Autnum),
    Other,
}

/// A registry response together with the time it was fetched.
#[derive(Debug, PartialEq, Eq)]
pub struct CachedEntry {
    pub response: RegistryResponse,
    pub fetched_at: String,
}

/// What a query answers: the resource's handle, the names of its registrant
/// and its administrative contact, and when the record was fetched.
#[derive(Debug, PartialEq, Eq)]
pub struct SummaryRecord {
    pub handle: String,
    pub registrant: Option<String>,
    pub administrative: Option<String>,
    pub fetched_at: String,
}

/// A contact as plain values.
pub struct ContactModel {
    pub roles: Option<Seq<Seq<char>>>,
    pub groups: Option<Seq<ValueModel>>,
}

/// An autonomous-system record as plain values.
pub struct AutnumModel {
    pub handle: Option<Seq<char>>,
    pub entities: Option<Seq<ContactModel>>,
}

/// A registry response as plain values.
pub enum ResponseModel {
    Autnum(AutnumModel),
    Other,
}

/// A cached entry as plain values.
pub struct EntryModel {
    pub response: ResponseModel,
    pub fetched_at: Seq<char>,
}

/// A summary as plain values.
pub struct SummaryView {
    pub handle: Seq<char>,
    pub registrant: Option<Seq<char>>,
    pub administrative: Option<Seq<char>>,
    pub fetched_at: Seq<char>,
}

/// The characters of an optional string.
pub open spec fn text_of(s: Option<String>) -> Option<Seq<char>> {
    match s {
        Some(t) => Some(t@),
        None => None,
    }
}

/// The characters of each of some strings.
pub open spec fn texts_of(strings: Seq<String>) -> Seq<Seq<char>> {
    Seq::new(strings.len(), |i: int| strings[i]@)
}

/// The roles in a list, as texts.
pub open spec fn roles_of(roles: Option<Vec<String>>) -> Option<Seq<Seq<char>>> {
    match roles {
        Some(list) => Some(texts_of(list@)),
        None => None,
    }
}

/// The models of some contacts, one for one.
pub open spec fn contact_models(contacts: Seq<ContactRecord>) -> Seq<ContactModel> {
    Seq::new(contacts.len(), |i: int| contacts[i]@)
}

impl View for ContactRecord {
    type V = ContactModel;

    open spec fn view(&self) -> ContactModel {
        ContactModel {
            roles: roles_of(self.roles),
            groups: match self.vcard_array {
                Some(groups) => Some(models_of(groups@)),
                None => None,
            },
        }
    }
}

impl View for Autnum {
    type V = AutnumModel;

    open spec fn view(&self) -> AutnumModel {
        AutnumModel {
            handle: text_of(self.handle),
            entities: match self.entities {
                Some(entities) => Some(contact_models(entities@)),
                None => None,
            },
        }
    }
}

impl View for RegistryResponse {
    type V = ResponseModel;

    open spec fn view(&self) -> ResponseModel {
        match *self {
            RegistryResponse::Autnum(record) => ResponseModel::Autnum(record@),
            RegistryResponse::Other => ResponseModel::Other,
        }
    }
}

impl View for CachedEntry {
    type V = EntryModel;

    open spec fn view(&self) -> EntryModel {
        EntryModel { response: self.response@, fetched_at: self.fetched_at@ }
    }
}

impl View for SummaryRecord {
    type V = SummaryView;

    open spec fn view(&self) -> SummaryView {
        SummaryView {
            handle: self.handle@,
            registrant: text_of(self.registrant),
            administrative: text_of(self.administrative),
            fetched_at: self.fetched_at@,
        }
    }
}

} // verus!
