//! Student groups.

use vstd::prelude::*;
use serde_json::Value;
use crate::decode::{field, optional_field, read_field, read_optional_field, Decode};
use crate::error::DecodeError;

verus! {

/// A student group. The identifier of its form of education, its course and
/// its calendar may each be missing. The faculty is named by its identifier;
/// nothing checks that a faculty with that identifier exists.
#[derive(Debug, Clone, PartialEq, Eq)]
pub struct Group {
    pub id: u32,
    pub name: String,
    pub faculty_id: u32,
    pub faculty_name: String,
    pub speciality_department_education_form_id: Option<u32>,
    pub speciality_name: String,
    pub course: Option<u32>,
    pub calendar_id: Option<String>,
}

/// What a `Group` holds.
pub struct GroupView {
    pub id: u32,
    pub name: Seq<char>,
    pub faculty_id: u32,
    pub faculty_name: Seq<char>,
    pub speciality_department_education_form_id: Option<u32>,
    pub speciality_name: Seq<char>,
    pub course: Option<u32>,
    pub calendar_id: Option<Seq<char>>,
}

impl View for Group {
    type V = GroupView;

    open spec fn view(&self) -> GroupView {
        GroupView {
            id: self.id,
            name: self.name@,
            faculty_id: self.faculty_id,
            faculty_name: self.faculty_name@,
            speciality_department_education_form_id: self.speciality_department_education_form_id.deep_view(),
            speciality_name: self.speciality_name@,
            course: self.course.deep_view(),
            calendar_id: self.calendar_id.deep_view(),
        }
    }
}

impl DeepView for Group {
    type V = GroupView;

    open spec fn deep_view(&self) -> GroupView {
        self@
    }
}

impl Decode for Group {
    open spec fn decoded(v: Value) -> Option<GroupView> {
        let id = field::<u32>(v, "id"@);
        let name = field::<String>(v, "name"@);
        let faculty_id = field::<u32>(v, "faculty_id"@);
        let faculty_name = field::<String>(v, "faculty_name"@);
        let speciality_department_education_form_id = optional_field::<u32>(v, "speciality_department_education_form_id"@);
        let speciality_name = field::<String>(v, "speciality_name"@);
        let course = optional_field::<u32>(v, "course"@);
        let calendar_id = optional_field::<String>(v, "calendar_id"@);
        if id is Some
            && name is Some
            && faculty_id is Some
            && faculty_name is Some
            && speciality_department_education_form_id is Some
            && speciality_name is Some
            && course is Some
            && calendar_id is Some
        {
            Some(
                GroupView {
                    id: id->0,
                    name: name->0,
                    faculty_id: faculty_id->0,
                    faculty_name: faculty_name->0,
                    speciality_department_education_form_id: speciality_department_education_form_id->0,
                    speciality_name: speciality_name->0,
                    course: course->0,
                    calendar_id: calendar_id->0,
                },
            )
        } else {
            None
        }
    }

    fn decode(v: &Value) -> (r: Result<Group, DecodeError>) {
        let id = read_field::<u32>(v, "id")?;
        let name = read_field::<String>(v, "name")?;
        let faculty_id = read_field::<u32>(v, "faculty_id")?;
        let faculty_name = read_field::<String>(v, "faculty_name")?;
        let speciality_department_education_form_id = read_optional_field::<u32>(v, "speciality_department_education_form_id")?;
        let speciality_name = read_field::<String>(v, "speciality_name")?;
        let course = read_optional_field::<u32>(v, "course")?;
        let calendar_id = read_optional_field::<String>(v, "calendar_id")?;
        Ok(
            Group {
                id,
                name,
                faculty_id,
                faculty_name,
                speciality_department_education_form_id,
                speciality_name,
                course,
                calendar_id,
            },
        )
    }
}

} // verus!
