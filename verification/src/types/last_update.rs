//! The date of the last change of a schedule, and the four ways to say whose
//! schedule is meant.

use vstd::prelude::*;
use serde_json::Value;
use crate::decimal::{decimal, push_decimal};
use crate::decode::{field, read_field, Decode};
use crate::error::DecodeError;
use crate::types::query_params::QueryParams;

verus! {

/// When a schedule was last changed.
#[derive(Debug, Clone, PartialEq, Eq)]
pub struct LastUpdate {
    /// The date as the service writes it; it is not parsed.
    pub last_update_date: String,
}

/// What a `LastUpdate` holds.
pub struct LastUpdateView {
    pub last_update_date: Seq<char>,
}

impl View for LastUpdate {
    type V = LastUpdateView;

    open spec fn view(&self) -> LastUpdateView {
        LastUpdateView {
            last_update_date: self.last_update_date@,
        }
    }
}

impl DeepView for LastUpdate {
    type V = LastUpdateView;

    open spec fn deep_view(&self) -> LastUpdateView {
        self@
    }
}

impl Decode for LastUpdate {
    open spec fn decoded(v: Value) -> Option<LastUpdateView> {
        let last_update_date = field::<String>(v, "last_update_date"@);
        if last_update_date is Some {
            Some(LastUpdateView { last_update_date: last_update_date->0 })
        } else {
            None
        }
    }

    fn decode(v: &Value) -> (r: Result<LastUpdate, DecodeError>) {
        let last_update_date = read_field::<String>(v, "last_update_date")?;
        Ok(LastUpdate { last_update_date })
    }
}

/// The schedule of the student group with this number.
#[derive(Debug, Clone, PartialEq, Eq)]
pub struct LastUpdateByGroupNumber {
    pub group_number: String,
}

impl QueryParams for LastUpdateByGroupNumber {
    open spec fn query_suffix(&self) -> Seq<char> {
        "student-group?groupNumber="@ + self.group_number@
    }

    fn get_query_params(&self) -> (r: String) {
        "student-group?groupNumber=".to_owned().concat(self.group_number.as_str())
    }
}

/// The schedule of the student group with this identifier.
#[derive(Debug, Clone, PartialEq, Eq)]
pub struct LastUpdateByGroupId {
    pub group_id: u32,
}

impl QueryParams for LastUpdateByGroupId {
    open spec fn query_suffix(&self) -> Seq<char> {
        "student-group?id="@ + decimal(self.group_id as nat)
    }

    fn get_query_params(&self) -> (r: String) {
        let mut suffix = "student-group?id=".to_owned();
        push_decimal(&mut suffix, self.group_id);
        suffix
    }
}

/// The schedule of the employee who has this identifier in addresses.
#[derive(Debug, Clone, PartialEq, Eq)]
pub struct LastUpdateByEmployeeUrlId {
    pub employee_id: String,
}

impl QueryParams for LastUpdateByEmployeeUrlId {
    open spec fn query_suffix(&self) -> Seq<char> {
        "employee?url-id="@ + self.employee_id@
    }

    fn get_query_params(&self) -> (r: String) {
        "employee?url-id=".to_owned().concat(self.employee_id.as_str())
    }
}

/// The schedule of the employee with this identifier.
#[derive(Debug, Clone, PartialEq, Eq)]
pub struct LastUpdateByEmployeeId {
    pub employee_id: u32,
}

impl QueryParams for LastUpdateByEmployeeId {
    open spec fn query_suffix(&self) -> Seq<char> {
        "employee?id="@ + decimal(self.employee_id as nat)
    }

    fn get_query_params(&self) -> (r: String) {
        let mut suffix = "employee?id=".to_owned();
        push_decimal(&mut suffix, self.employee_id);
        suffix
    }
}

} // verus!
