//! The records that the service's answers decode to.

use vstd::prelude::*;

verus! {

/// One disclosed breach.
#[derive(Debug, PartialEq, Eq, Clone)]
pub struct Breach {
    pub name: String,
    pub title: Option<String>,
    pub domain: Option<String>,
    pub breach_date: Option<String>,
    pub added_date: Option<String>,
    pub pwn_count: Option<u64>,
    pub description: Option<String>,
    pub data_classes: Option<Vec<String>>,
    pub is_verified: Option<bool>,
    pub is_sensitive: Option<bool>,
    pub is_retired: Option<bool>,
}

/// The model of a `Breach`.
pub ghost struct BreachModel {
    pub name: Seq<char>,
    pub title: Option<Seq<char>>,
    pub domain: Option<Seq<char>>,
    pub breach_date: Option<Seq<char>>,
    pub added_date: Option<Seq<char>>,
    pub pwn_count: Option<u64>,
    pub description: Option<Seq<char>>,
    pub data_classes: Option<Seq<Seq<char>>>,
    pub is_verified: Option<bool>,
    pub is_sensitive: Option<bool>,
    pub is_retired: Option<bool>,
}

pub open spec fn opt_str_view(s: Option<String>) -> Option<Seq<char>> {
    match s {
        Some(x) => Some(x@),
        None => None,
    }
}

pub open spec fn strings_view(v: Seq<String>) -> Seq<Seq<char>> {
    v.map_values(|s: String| s@)
}

impl View for Breach {
    type V = BreachModel;

    open spec fn view(&self) -> BreachModel {
        BreachModel {
            name: self.name@,
            title: opt_str_view(self.title),
            domain: opt_str_view(self.domain),
            breach_date: opt_str_view(self.breach_date),
            added_date: opt_str_view(self.added_date),
            pwn_count: self.pwn_count,
            description: opt_str_view(self.description),
            data_classes: match self.data_classes {
                Some(v) => Some(strings_view(v@)),
                None => None,
            },
            is_verified: self.is_verified,
            is_sensitive: self.is_sensitive,
            is_retired: self.is_retired,
        }
    }
}

/// One public paste that holds an account's data.
#[derive(Debug, PartialEq, Eq, Clone)]
pub struct Paste {
    pub source: String,
    pub id: String,
    pub title: Option<String>,
    pub date: Option<String>,
    pub email_count: u64,
}

/// The model of a `Paste`.
pub ghost struct PasteModel {
    pub source: Seq<char>,
    pub id: Seq<char>,
    pub title: Option<Seq<char>>,
    pub date: Option<Seq<char>>,
    pub email_count: u64,
}

impl View for Paste {
    type V = PasteModel;

    open spec fn view(&self) -> PasteModel {
        PasteModel {
            source: self.source@,
            id: self.id@,
            title: opt_str_view(self.title),
            date: opt_str_view(self.date),
            email_count: self.email_count,
        }
    }
}

} // verus!
