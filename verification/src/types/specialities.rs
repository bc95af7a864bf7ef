//! Specialities.

use vstd::prelude::*;
use serde_json::Value;
use crate::decode::{field, read_field, Decode};
use crate::error::DecodeError;

verus! {

/// A form of education: full time, part time and so on.
#[derive(Debug, Clone, PartialEq, Eq)]
pub struct EducationForm {
    pub id: u32,
    pub name: String,
}

/// What an `EducationForm` holds.
pub struct EducationFormView {
    pub id: u32,
    pub name: Seq<char>,
}

impl View for EducationForm {
    type V = EducationFormView;

    open spec fn view(&self) -> EducationFormView {
        EducationFormView {
            id: self.id,
            name: self.name@,
        }
    }
}

impl DeepView for EducationForm {
    type V = EducationFormView;

    open spec fn deep_view(&self) -> EducationFormView {
        self@
    }
}

impl Decode for EducationForm {
    open spec fn decoded(v: Value) -> Option<EducationFormView> {
        let id = field::<u32>(v, "id"@);
        let name = field::<String>(v, "name"@);
        if id is Some && name is Some {
            Some(EducationFormView { id: id->0, name: name->0 })
        } else {
            None
        }
    }

    fn decode(v: &Value) -> (r: Result<EducationForm, DecodeError>) {
        let id = read_field::<u32>(v, "id")?;
        let name = read_field::<String>(v, "name")?;
        Ok(EducationForm { id, name })
    }
}

/// A speciality, with the form of education in which it is taught.
#[derive(Debug, Clone, PartialEq, Eq)]
pub struct Speciality {
    pub id: u32,
    pub name: String,
    pub abbrev: String,
    pub education_form: EducationForm,
    pub faculty_id: u32,
    pub code: String,
}

/// What a `Speciality` holds.
pub struct SpecialityView {
    pub id: u32,
    pub name: Seq<char>,
    pub abbrev: Seq<char>,
    pub education_form: EducationFormView,
    pub faculty_id: u32,
    pub code: Seq<char>,
}

impl View for Speciality {
    type V = SpecialityView;

    open spec fn view(&self) -> SpecialityView {
        SpecialityView {
            id: self.id,
            name: self.name@,
            abbrev: self.abbrev@,
            education_form: self.education_form@,
            faculty_id: self.faculty_id,
            code: self.code@,
        }
    }
}

impl DeepView for Speciality {
    type V = SpecialityView;

    open spec fn deep_view(&self) -> SpecialityView {
        self@
    }
}

impl Decode for Speciality {
    open spec fn decoded(v: Value) -> Option<SpecialityView> {
        let id = field::<u32>(v, "id"@);
        let name = field::<String>(v, "name"@);
        let abbrev = field::<String>(v, "abbrev"@);
        let education_form = field::<EducationForm>(v, "education_form"@);
        let faculty_id = field::<u32>(v, "faculty_id"@);
        let code = field::<String>(v, "code"@);
        if id is Some
            && name is Some
            && abbrev is Some
            && education_form is Some
            && faculty_id is Some
            && code is Some
        {
            Some(
                SpecialityView {
                    id: id->0,
                    name: name->0,
                    abbrev: abbrev->0,
                    education_form: education_form->0,
                    faculty_id: faculty_id->0,
                    code: code->0,
                },
            )
        } else {
            None
        }
    }

    fn decode(v: &Value) -> (r: Result<Speciality, DecodeError>) {
        let id = read_field::<u32>(v, "id")?;
        let name = read_field::<String>(v, "name")?;
        let abbrev = read_field::<String>(v, "abbrev")?;
        let education_form = read_field::<EducationForm>(v, "education_form")?;
        let faculty_id = read_field::<u32>(v, "faculty_id")?;
        let code = read_field::<String>(v, "code")?;
        Ok(Speciality { id, name, abbrev, education_form, faculty_id, code })
    }
}

} // verus!
