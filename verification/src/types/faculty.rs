//! Faculties.

use vstd::prelude::*;
use serde_json::Value;
use crate::decode::{field, read_field, Decode};
use crate::error::DecodeError;

verus! {

/// A faculty, as the list of faculties gives it.
#[derive(Debug, Clone, PartialEq, Eq)]
pub struct Faculty {
    pub id: u32,
    pub name: String,
    pub abbrev: String,
}

/// What a `Faculty` holds.
pub struct FacultyView {
    pub id: u32,
    pub name: Seq<char>,
    pub abbrev: Seq<char>,
}

impl View for Faculty {
    type V = FacultyView;

    open spec fn view(&self) -> FacultyView {
        FacultyView {
            id: self.id,
            name: self.name@,
            abbrev: self.abbrev@,
        }
    }
}

impl DeepView for Faculty {
    type V = FacultyView;

    open spec fn deep_view(&self) -> FacultyView {
        self@
    }
}

impl Decode for Faculty {
    open spec fn decoded(v: Value) -> Option<FacultyView> {
        let id = field::<u32>(v, "id"@);
        let name = field::<String>(v, "name"@);
        let abbrev = field::<String>(v, "abbrev"@);
        if id is Some && name is Some && abbrev is Some {
            Some(FacultyView { id: id->0, name: name->0, abbrev: abbrev->0 })
        } else {
            None
        }
    }

    fn decode(v: &Value) -> (r: Result<Faculty, DecodeError>) {
        let id = read_field::<u32>(v, "id")?;
        let name = read_field::<String>(v, "name")?;
        let abbrev = read_field::<String>(v, "abbrev")?;
        Ok(Faculty { id, name, abbrev })
    }
}

} // verus!
