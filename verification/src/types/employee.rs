//! Employees.

use vstd::prelude::*;
use serde_json::Value;
use crate::decode::{field, optional_field, read_field, read_optional_field, Decode};
use crate::error::DecodeError;

verus! {

/// An employee. The rank may be missing.
#[derive(Debug, Clone, PartialEq, Eq)]
pub struct Employee {
    pub id: u32,
    pub first_name: String,
    pub last_name: String,
    pub middle_name: String,
    pub degree: String,
    pub rank: Option<String>,
    pub photo_link: String,
    pub calendar_id: String,
    /// The names of the departments that the employee works in.
    pub academic_department: Vec<String>,
    /// The identifier that stands for the employee in an address.
    pub url_id: String,
    /// The full name in one string.
    pub fio: String,
}

/// What an `Employee` holds.
pub struct EmployeeView {
    pub id: u32,
    pub first_name: Seq<char>,
    pub last_name: Seq<char>,
    pub middle_name: Seq<char>,
    pub degree: Seq<char>,
    pub rank: Option<Seq<char>>,
    pub photo_link: Seq<char>,
    pub calendar_id: Seq<char>,
    pub academic_department: Seq<Seq<char>>,
    pub url_id: Seq<char>,
    pub fio: Seq<char>,
}

impl View for Employee {
    type V = EmployeeView;

    open spec fn view(&self) -> EmployeeView {
        EmployeeView {
            id: self.id,
            first_name: self.first_name@,
            last_name: self.last_name@,
            middle_name: self.middle_name@,
            degree: self.degree@,
            rank: self.rank.deep_view(),
            photo_link: self.photo_link@,
            calendar_id: self.calendar_id@,
            academic_department: self.academic_department.deep_view(),
            url_id: self.url_id@,
            fio: self.fio@,
        }
    }
}

impl DeepView for Employee {
    type V = EmployeeView;

    open spec fn deep_view(&self) -> EmployeeView {
        self@
    }
}

impl Decode for Employee {
    open spec fn decoded(v: Value) -> Option<EmployeeView> {
        let id = field::<u32>(v, "id"@);
        let first_name = field::<String>(v, "first_name"@);
        let last_name = field::<String>(v, "last_name"@);
        let middle_name = field::<String>(v, "middle_name"@);
        let degree = field::<String>(v, "degree"@);
        let rank = optional_field::<String>(v, "rank"@);
        let photo_link = field::<String>(v, "photo_link"@);
        let calendar_id = field::<String>(v, "calendar_id"@);
        let academic_department = field::<Vec<String>>(v, "academic_department"@);
        let url_id = field::<String>(v, "url_id"@);
        let fio = field::<String>(v, "fio"@);
        if id is Some
            && first_name is Some
            && last_name is Some
            && middle_name is Some
            && degree is Some
            && rank is Some
            && photo_link is Some
            && calendar_id is Some
            && academic_department is Some
            && url_id is Some
            && fio is Some
        {
            Some(
                EmployeeView {
                    id: id->0,
                    first_name: first_name->0,
                    last_name: last_name->0,
                    middle_name: middle_name->0,
                    degree: degree->0,
                    rank: rank->0,
                    photo_link: photo_link->0,
                    calendar_id: calendar_id->0,
                    academic_department: academic_department->0,
                    url_id: url_id->0,
                    fio: fio->0,
                },
            )
        } else {
            None
        }
    }

    fn decode(v: &Value) -> (r: Result<Employee, DecodeError>) {
        let id = read_field::<u32>(v, "id")?;
        let first_name = read_field::<String>(v, "first_name")?;
        let last_name = read_field::<String>(v, "last_name")?;
        let middle_name = read_field::<String>(v, "middle_name")?;
        let degree = read_field::<String>(v, "degree")?;
        let rank = read_optional_field::<String>(v, "rank")?;
        let photo_link = read_field::<String>(v, "photo_link")?;
        let calendar_id = read_field::<String>(v, "calendar_id")?;
        let academic_department = read_field::<Vec<String>>(v, "academic_department")?;
        let url_id = read_field::<String>(v, "url_id")?;
        let fio = read_field::<String>(v, "fio")?;
        Ok(
            Employee {
                id,
                first_name,
                last_name,
                middle_name,
                degree,
                rank,
                photo_link,
                calendar_id,
                academic_department,
                url_id,
                fio,
            },
        )
    }
}

} // verus!
