//! Rooms, with the building and the department that each belongs to.

use vstd::prelude::*;
use serde_json::Value;
use crate::decode::{field, optional_field, read_field, read_optional_field, Decode};
use crate::error::DecodeError;

verus! {

/// The kind of a room: lecture hall, laboratory and so on.
#[derive(Debug, Clone, PartialEq, Eq)]
pub struct AuditoryType {
    pub id: u32,
    pub name: String,
    pub abbrev: String,
}

/// What an `AuditoryType` holds.
pub struct AuditoryTypeView {
    pub id: u32,
    pub name: Seq<char>,
    pub abbrev: Seq<char>,
}

impl View for AuditoryType {
    type V = AuditoryTypeView;

    open spec fn view(&self) -> AuditoryTypeView {
        AuditoryTypeView {
            id: self.id,
            name: self.name@,
            abbrev: self.abbrev@,
        }
    }
}

impl DeepView for AuditoryType {
    type V = AuditoryTypeView;

    open spec fn deep_view(&self) -> AuditoryTypeView {
        self@
    }
}

impl Decode for AuditoryType {
    open spec fn decoded(v: Value) -> Option<AuditoryTypeView> {
        let id = field::<u32>(v, "id"@);
        let name = field::<String>(v, "name"@);
        let abbrev = field::<String>(v, "abbrev"@);
        if id is Some && name is Some && abbrev is Some {
            Some(AuditoryTypeView { id: id->0, name: name->0, abbrev: abbrev->0 })
        } else {
            None
        }
    }

    fn decode(v: &Value) -> (r: Result<AuditoryType, DecodeError>) {
        let id = read_field::<u32>(v, "id")?;
        let name = read_field::<String>(v, "name")?;
        let abbrev = read_field::<String>(v, "abbrev")?;
        Ok(AuditoryType { id, name, abbrev })
    }
}

/// The building that a room is in.
#[derive(Debug, Clone, PartialEq, Eq)]
pub struct BuildingNumber {
    pub id: u32,
    pub name: String,
}

/// What a `BuildingNumber` holds.
pub struct BuildingNumberView {
    pub id: u32,
    pub name: Seq<char>,
}

impl View for BuildingNumber {
    type V = BuildingNumberView;

    open spec fn view(&self) -> BuildingNumberView {
        BuildingNumberView {
            id: self.id,
            name: self.name@,
        }
    }
}

impl DeepView for BuildingNumber {
    type V = BuildingNumberView;

    open spec fn deep_view(&self) -> BuildingNumberView {
        self@
    }
}

impl Decode for BuildingNumber {
    open spec fn decoded(v: Value) -> Option<BuildingNumberView> {
        let id = field::<u32>(v, "id"@);
        let name = field::<String>(v, "name"@);
        if id is Some && name is Some {
            Some(BuildingNumberView { id: id->0, name: name->0 })
        } else {
            None
        }
    }

    fn decode(v: &Value) -> (r: Result<BuildingNumber, DecodeError>) {
        let id = read_field::<u32>(v, "id")?;
        let name = read_field::<String>(v, "name")?;
        Ok(BuildingNumber { id, name })
    }
}

/// The department that a room belongs to, as a room names it.
#[derive(Debug, Clone, PartialEq, Eq)]
pub struct AuditoryDepartment {
    pub id_department: u32,
    pub abbrev: String,
    pub name: String,
    /// The name and the abbreviation in one string.
    pub name_and_abbrev: String,
}

/// What an `AuditoryDepartment` holds.
pub struct AuditoryDepartmentView {
    pub id_department: u32,
    pub abbrev: Seq<char>,
    pub name: Seq<char>,
    pub name_and_abbrev: Seq<char>,
}

impl View for AuditoryDepartment {
    type V = AuditoryDepartmentView;

    open spec fn view(&self) -> AuditoryDepartmentView {
        AuditoryDepartmentView {
            id_department: self.id_department,
            abbrev: self.abbrev@,
            name: self.name@,
            name_and_abbrev: self.name_and_abbrev@,
        }
    }
}

impl DeepView for AuditoryDepartment {
    type V = AuditoryDepartmentView;

    open spec fn deep_view(&self) -> AuditoryDepartmentView {
        self@
    }
}

impl Decode for AuditoryDepartment {
    open spec fn decoded(v: Value) -> Option<AuditoryDepartmentView> {
        let id_department = field::<u32>(v, "id_department"@);
        let abbrev = field::<String>(v, "abbrev"@);
        let name = field::<String>(v, "name"@);
        let name_and_abbrev = field::<String>(v, "name_and_abbrev"@);
        if id_department is Some && abbrev is Some && name is Some && name_and_abbrev is Some {
            Some(
                AuditoryDepartmentView {
                    id_department: id_department->0,
                    abbrev: abbrev->0,
                    name: name->0,
                    name_and_abbrev: name_and_abbrev->0,
                },
            )
        } else {
            None
        }
    }

    fn decode(v: &Value) -> (r: Result<AuditoryDepartment, DecodeError>) {
        let id_department = read_field::<u32>(v, "id_department")?;
        let abbrev = read_field::<String>(v, "abbrev")?;
        let name = read_field::<String>(v, "name")?;
        let name_and_abbrev = read_field::<String>(v, "name_and_abbrev")?;
        Ok(AuditoryDepartment { id_department, abbrev, name, name_and_abbrev })
    }
}

/// A room. Its note, its capacity and its department may each be missing.
#[derive(Debug, Clone, PartialEq, Eq)]
pub struct Auditory {
    pub id: u32,
    pub name: String,
    pub note: Option<String>,
    pub capacity: Option<u32>,
    pub auditory_type: AuditoryType,
    pub building_number: BuildingNumber,
    pub department: Option<AuditoryDepartment>,
}

/// What an `Auditory` holds.
pub struct AuditoryView {
    pub id: u32,
    pub name: Seq<char>,
    pub note: Option<Seq<char>>,
    pub capacity: Option<u32>,
    pub auditory_type: AuditoryTypeView,
    pub building_number: BuildingNumberView,
    pub department: Option<AuditoryDepartmentView>,
}

impl View for Auditory {
    type V = AuditoryView;

    open spec fn view(&self) -> AuditoryView {
        AuditoryView {
            id: self.id,
            name: self.name@,
            note: self.note.deep_view(),
            capacity: self.capacity.deep_view(),
            auditory_type: self.auditory_type@,
            building_number: self.building_number@,
            department: self.department.deep_view(),
        }
    }
}

impl DeepView for Auditory {
    type V = AuditoryView;

    open spec fn deep_view(&self) -> AuditoryView {
        self@
    }
}

impl Decode for Auditory {
    open spec fn decoded(v: Value) -> Option<AuditoryView> {
        let id = field::<u32>(v, "id"@);
        let name = field::<String>(v, "name"@);
        let note = optional_field::<String>(v, "note"@);
        let capacity = optional_field::<u32>(v, "capacity"@);
        let auditory_type = field::<AuditoryType>(v, "auditory_type"@);
        let building_number = field::<BuildingNumber>(v, "building_number"@);
        let department = optional_field::<AuditoryDepartment>(v, "department"@);
        if id is Some
            && name is Some
            && note is Some
            && capacity is Some
            && auditory_type is Some
            && building_number is Some
            && department is Some
        {
            Some(
                AuditoryView {
                    id: id->0,
                    name: name->0,
                    note: note->0,
                    capacity: capacity->0,
                    auditory_type: auditory_type->0,
                    building_number: building_number->0,
                    department: department->0,
                },
            )
        } else {
            None
        }
    }

    fn decode(v: &Value) -> (r: Result<Auditory, DecodeError>) {
        let id = read_field::<u32>(v, "id")?;
        let name = read_field::<String>(v, "name")?;
        let note = read_optional_field::<String>(v, "note")?;
        let capacity = read_optional_field::<u32>(v, "capacity")?;
        let auditory_type = read_field::<AuditoryType>(v, "auditory_type")?;
        let building_number = read_field::<BuildingNumber>(v, "building_number")?;
        let department = read_optional_field::<AuditoryDepartment>(v, "department")?;
        Ok(Auditory { id, name, note, capacity, auditory_type, building_number, department })
    }
}

} // verus!
