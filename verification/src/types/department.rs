//! Departments.

use vstd::prelude::*;
use serde_json::Value;
use crate::decode::{field, read_field, Decode};
use crate::error::DecodeError;

verus! {

/// A department, as the list of departments gives it.
#[derive(Debug, Clone, PartialEq, Eq)]
pub struct Department {
    pub id: u32,
    pub name: String,
    pub abbrev: String,
}

/// What a `Department` holds.
pub struct DepartmentView {
    pub id: u32,
    pub name: Seq<char>,
    pub abbrev: Seq<char>,
}

impl View for Department {
    type V = DepartmentView;

    open spec fn view(&self) -> DepartmentView {
        DepartmentView {
            id: self.id,
            name: self.name@,
            abbrev: self.abbrev@,
        }
    }
}

impl DeepView for Department {
    type V = DepartmentView;

    open spec fn deep_view(&self) -> DepartmentView {
        self@
    }
}

impl Decode for Department {
    open spec fn decoded(v: Value) -> Option<DepartmentView> {
        let id = field::<u32>(v, "id"@);
        let name = field::<String>(v, "name"@);
        let abbrev = field::<String>(v, "abbrev"@);
        if id is Some && name is Some && abbrev is Some {
            Some(DepartmentView { id: id->0, name: name->0, abbrev: abbrev->0 })
        } else {
            None
        }
    }

    fn decode(v: &Value) -> (r: Result<Department, DecodeError>) {
        let id = read_field::<u32>(v, "id")?;
        let name = read_field::<String>(v, "name")?;
        let abbrev = read_field::<String>(v, "abbrev")?;
        Ok(Department { id, name, abbrev })
    }
}

} // verus!
