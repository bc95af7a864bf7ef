//! Announcements, and the two ways to say whose announcements are meant.

use vstd::prelude::*;
use serde_json::Value;
use crate::decimal::{decimal, push_decimal};
use crate::decode::{field, read_field, Decode};
use crate::error::DecodeError;
use crate::types::query_params::QueryParams;

verus! {

/// A student group, as an announcement names it.
#[derive(Debug, Clone, PartialEq, Eq)]
pub struct StudentGroup {
    pub id: u32,
    pub name: String,
}

/// What a `StudentGroup` holds.
pub struct StudentGroupView {
    pub id: u32,
    pub name: Seq<char>,
}

impl View for StudentGroup {
    type V = StudentGroupView;

    open spec fn view(&self) -> StudentGroupView {
        StudentGroupView {
            id: self.id,
            name: self.name@,
        }
    }
}

impl DeepView for StudentGroup {
    type V = StudentGroupView;

    open spec fn deep_view(&self) -> StudentGroupView {
        self@
    }
}

impl Decode for StudentGroup {
    open spec fn decoded(v: Value) -> Option<StudentGroupView> {
        let id = field::<u32>(v, "id"@);
        let name = field::<String>(v, "name"@);
        if id is Some && name is Some {
            Some(StudentGroupView { id: id->0, name: name->0 })
        } else {
            None
        }
    }

    fn decode(v: &Value) -> (r: Result<StudentGroup, DecodeError>) {
        let id = read_field::<u32>(v, "id")?;
        let name = read_field::<String>(v, "name")?;
        Ok(StudentGroup { id, name })
    }
}

/// An announcement of an employee to student groups.
#[derive(Debug, Clone, PartialEq, Eq)]
pub struct Announcement {
    pub id: u32,
    /// The full name of the employee who announces.
    pub employee: String,
    pub content: String,
    /// The date as the service writes it; it is not parsed.
    pub date: String,
    pub employee_departments: Vec<String>,
    pub student_groups: Vec<StudentGroup>,
}

/// What an `Announcement` holds.
pub struct AnnouncementView {
    pub id: u32,
    pub employee: Seq<char>,
    pub content: Seq<char>,
    pub date: Seq<char>,
    pub employee_departments: Seq<Seq<char>>,
    pub student_groups: Seq<StudentGroupView>,
}

impl View for Announcement {
    type V = AnnouncementView;

    open spec fn view(&self) -> AnnouncementView {
        AnnouncementView {
            id: self.id,
            employee: self.employee@,
            content: self.content@,
            date: self.date@,
            employee_departments: self.employee_departments.deep_view(),
            student_groups: self.student_groups.deep_view(),
        }
    }
}

impl DeepView for Announcement {
    type V = AnnouncementView;

    open spec fn deep_view(&self) -> AnnouncementView {
        self@
    }
}

impl Decode for Announcement {
    open spec fn decoded(v: Value) -> Option<AnnouncementView> {
        let id = field::<u32>(v, "id"@);
        let employee = field::<String>(v, "employee"@);
        let content = field::<String>(v, "content"@);
        let date = field::<String>(v, "date"@);
        let employee_departments = field::<Vec<String>>(v, "employee_departments"@);
        let student_groups = field::<Vec<StudentGroup>>(v, "student_groups"@);
        if id is Some
            && employee is Some
            && content is Some
            && date is Some
            && employee_departments is Some
            && student_groups is Some
        {
            Some(
                AnnouncementView {
                    id: id->0,
                    employee: employee->0,
                    content: content->0,
                    date: date->0,
                    employee_departments: employee_departments->0,
                    student_groups: student_groups->0,
                },
            )
        } else {
            None
        }
    }

    fn decode(v: &Value) -> (r: Result<Announcement, DecodeError>) {
        let id = read_field::<u32>(v, "id")?;
        let employee = read_field::<String>(v, "employee")?;
        let content = read_field::<String>(v, "content")?;
        let date = read_field::<String>(v, "date")?;
        let employee_departments = read_field::<Vec<String>>(v, "employee_departments")?;
        let student_groups = read_field::<Vec<StudentGroup>>(v, "student_groups")?;
        Ok(Announcement { id, employee, content, date, employee_departments, student_groups })
    }
}

/// The announcements of the department with this identifier.
#[derive(Debug, Clone, PartialEq, Eq)]
pub struct AnnouncementsOfDepartment {
    pub department_id: u32,
}

impl QueryParams for AnnouncementsOfDepartment {
    open spec fn query_suffix(&self) -> Seq<char> {
        "departments?id="@ + decimal(self.department_id as nat)
    }

    fn get_query_params(&self) -> (r: String) {
        let mut suffix = "departments?id=".to_owned();
        push_decimal(&mut suffix, self.department_id);
        suffix
    }
}

/// The announcements of the employee who has this identifier in addresses.
#[derive(Debug, Clone, PartialEq, Eq)]
pub struct AnnouncementsOfEmployee {
    pub employee_url_id: String,
}

impl QueryParams for AnnouncementsOfEmployee {
    open spec fn query_suffix(&self) -> Seq<char> {
        "employees?url-id="@ + self.employee_url_id@
    }

    fn get_query_params(&self) -> (r: String) {
        "employees?url-id=".to_owned().concat(self.employee_url_id.as_str())
    }
}

} // verus!
