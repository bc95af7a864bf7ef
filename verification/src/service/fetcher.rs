//! The client: one method for each endpoint of the service.
//!
//! A method builds the address of its endpoint, asks the transport for it
//! once, and decodes what comes back. The transport is a function that the
//! caller hands in. Nothing is kept between calls, nothing is tried twice,
//! and a failure of either step is the result of the call.

use vstd::prelude::*;
use crate::decimal::{parse_unsigned, unsigned_of};
use crate::decode::{decode_text, outcome_is, text_decoded, Decode};
use crate::error::{DecodeError, FetchError, FetcherError};
use crate::json::json_parse;
use crate::types::announcement::Announcement;
use crate::types::auditory::Auditory;
use crate::types::department::Department;
use crate::types::employee::Employee;
use crate::types::faculty::Faculty;
use crate::types::group::Group;
use crate::types::last_update::LastUpdate;
use crate::types::query_params::QueryParams;
use crate::types::specialities::Speciality;

verus! {

/// Whether the transport `fetch` can be asked for the address `url`.
pub open spec fn accepts<F: Fn(&str) -> Result<String, FetchError>>(
    fetch: F,
    url: Seq<char>,
) -> bool {
    forall|u: &str| u@ == url ==> #[trigger] call_requires(fetch, (u,))
}

/// Whether `got` is an outcome that the transport `fetch` may have when it is
/// asked for the address `url`.
pub open spec fn may_answer<F: Fn(&str) -> Result<String, FetchError>>(
    fetch: F,
    url: Seq<char>,
    got: Result<String, FetchError>,
) -> bool {
    exists|u: &str| u@ == url && #[trigger] call_ensures(fetch, (u,), got)
}

/// What a call returns when its request had the outcome `got` and the answer
/// is JSON for a `T`: the failure of the transport as it came, or the text
/// decoded, or why it could not be.
pub open spec fn response_decoded<T: Decode>(got: Result<String, FetchError>) -> Result<
    T::V,
    FetcherError,
> {
    match got {
        Ok(text) => match text_decoded::<T>(text@) {
            Ok(t) => Ok(t),
            Err(e) => Err(FetcherError::Decode(e)),
        },
        Err(e) => Err(FetcherError::Fetch(e)),
    }
}

/// What the call for the number of the week returns when its request had the
/// outcome `got`. The answer is not JSON: it is the number as text.
pub open spec fn week_number_response(got: Result<String, FetchError>) -> Result<
    u32,
    FetcherError,
> {
    match got {
        Ok(text) => match unsigned_of(text@) {
            Some(n) => Ok(n),
            None => Err(FetcherError::Decode(DecodeError::NotANumber)),
        },
        Err(e) => Err(FetcherError::Fetch(e)),
    }
}

/// Whether `r` is what one request of `url` through `fetch` gives, decoded as
/// a `T`.
pub open spec fn fetched_as<T: Decode, F: Fn(&str) -> Result<String, FetchError>>(
    fetch: F,
    url: Seq<char>,
    r: Result<T, FetcherError>,
) -> bool {
    exists|got: Result<String, FetchError>| #[trigger]
        may_answer(fetch, url, got) && outcome_is(r, response_decoded::<T>(got))
}

/// Whether `r` is what one request of `url` through `fetch` gives, read as the
/// number of the week.
pub open spec fn fetched_as_week_number<F: Fn(&str) -> Result<String, FetchError>>(
    fetch: F,
    url: Seq<char>,
    r: Result<u32, FetcherError>,
) -> bool {
    exists|got: Result<String, FetchError>| #[trigger]
        may_answer(fetch, url, got) && r == week_number_response(got)
}

/// Turns the outcome of a request into the result of the call, for an
/// endpoint that answers with JSON for a `T`.
pub fn decode_response<T: Decode>(got: Result<String, FetchError>) -> (r: Result<T, FetcherError>)
    ensures
        outcome_is(r, response_decoded::<T>(got)),
{
    match got {
        Ok(text) => match decode_text::<T>(text.as_str()) {
            Ok(t) => Ok(t),
            Err(e) => Err(FetcherError::Decode(e)),
        },
        Err(e) => Err(FetcherError::Fetch(e)),
    }
}

/// Turns the outcome of a request into the result of the call, for the
/// endpoint that answers with the number of the week.
pub fn decode_week_number(got: Result<String, FetchError>) -> (r: Result<u32, FetcherError>)
    ensures
        r == week_number_response(got),
{
    match got {
        Ok(text) => match parse_unsigned(text.as_str()) {
            Some(n) => Ok(n),
            None => Err(FetcherError::Decode(DecodeError::NotANumber)),
        },
        Err(e) => Err(FetcherError::Fetch(e)),
    }
}

/// A client of the service at one base address.
pub struct Fetcher {
    base_url: String,
}

impl Fetcher {
    /// The base address, as it was given.
    pub closed spec fn base_url(&self) -> Seq<char> {
        self.base_url@
    }

    /// The address of the endpoint at `path`: the base address and the path,
    /// one after the other.
    pub open spec fn address(&self, path: Seq<char>) -> Seq<char> {
        self.base_url() + path
    }

    /// A client of the service at `url`. The address is kept as it is, so it
    /// must not end in a slash: the paths start with one.
    pub fn new(url: String) -> (fetcher: Fetcher)
        ensures
            fetcher.base_url() == url@,
    {
        Fetcher { base_url: url }
    }

    /// The address of the endpoint at `url`.
    pub fn url(&self, url: &str) -> (r: String)
        ensures
            r@ == self.address(url@),
    {
        self.base_url.clone().concat(url)
    }

    /// Asks `fetch` for `url`, once, and decodes the answer as JSON for a `T`.
    pub fn fetch_and_deserialize<T: Decode, F: Fn(&str) -> Result<String, FetchError>>(
        url: &String,
        fetch: F,
    ) -> (r: Result<T, FetcherError>)
        requires
            accepts(fetch, url@),
        ensures
            fetched_as(fetch, url@, r),
    {
        let got = fetch(url.as_str());
        let ghost outcome = got;
        assert(may_answer(fetch, url@, outcome));
        decode_response::<T>(got)
    }

    /// The number of the current week.
    pub fn get_week_number<F: Fn(&str) -> Result<String, FetchError>>(&self, fetch: F) -> (r:
        Result<u32, FetcherError>)
        requires
            accepts(fetch, self.address("/api/v1/schedule/current-week"@)),
        ensures
            fetched_as_week_number(fetch, self.address("/api/v1/schedule/current-week"@), r),
    {
        let url = self.url("/api/v1/schedule/current-week");
        let got = fetch(url.as_str());
        let ghost outcome = got;
        assert(may_answer(fetch, url@, outcome));
        decode_week_number(got)
    }

    /// All rooms.
    pub fn get_auditories<F: Fn(&str) -> Result<String, FetchError>>(&self, fetch: F) -> (r:
        Result<Vec<Auditory>, FetcherError>)
        requires
            accepts(fetch, self.address("/api/v1/auditories"@)),
        ensures
            fetched_as(fetch, self.address("/api/v1/auditories"@), r),
    {
        Fetcher::fetch_and_deserialize(&self.url("/api/v1/auditories"), fetch)
    }

    /// When the schedule that `param` selects was last changed.
    pub fn get_last_update<T: QueryParams, F: Fn(&str) -> Result<String, FetchError>>(
        &self,
        param: T,
        fetch: F,
    ) -> (r: Result<LastUpdate, FetcherError>)
        requires
            accepts(fetch, self.address("/api/v1/last-update-date/"@ + param.query_suffix())),
        ensures
            fetched_as(
                fetch,
                self.address("/api/v1/last-update-date/"@ + param.query_suffix()),
                r,
            ),
    {
        let path = "/api/v1/last-update-date/".to_owned().concat(
            param.get_query_params().as_str(),
        );
        Fetcher::fetch_and_deserialize(&self.url(path.as_str()), fetch)
    }

    /// The announcements that `param` selects.
    pub fn get_announcements<T: QueryParams, F: Fn(&str) -> Result<String, FetchError>>(
        &self,
        param: T,
        fetch: F,
    ) -> (r: Result<Vec<Announcement>, FetcherError>)
        requires
            accepts(fetch, self.address("/api/v1/announcements/"@ + param.query_suffix())),
        ensures
            fetched_as(fetch, self.address("/api/v1/announcements/"@ + param.query_suffix()), r),
    {
        let path = "/api/v1/announcements/".to_owned().concat(param.get_query_params().as_str());
        Fetcher::fetch_and_deserialize(&self.url(path.as_str()), fetch)
    }

    /// All specialities.
    pub fn get_specielities<F: Fn(&str) -> Result<String, FetchError>>(&self, fetch: F) -> (r:
        Result<Vec<Speciality>, FetcherError>)
        requires
            accepts(fetch, self.address("/api/v1/specialities"@)),
        ensures
            fetched_as(fetch, self.address("/api/v1/specialities"@), r),
    {
        Fetcher::fetch_and_deserialize(&self.url("/api/v1/specialities"), fetch)
    }

    /// All departments.
    pub fn get_departments<F: Fn(&str) -> Result<String, FetchError>>(&self, fetch: F) -> (r:
        Result<Vec<Department>, FetcherError>)
        requires
            accepts(fetch, self.address("/api/v1/departments"@)),
        ensures
            fetched_as(fetch, self.address("/api/v1/departments"@), r),
    {
        Fetcher::fetch_and_deserialize(&self.url("/api/v1/departments"), fetch)
    }

    /// All faculties.
    pub fn get_faculties<F: Fn(&str) -> Result<String, FetchError>>(&self, fetch: F) -> (r:
        Result<Vec<Faculty>, FetcherError>)
        requires
            accepts(fetch, self.address("/api/v1/faculties"@)),
        ensures
            fetched_as(fetch, self.address("/api/v1/faculties"@), r),
    {
        Fetcher::fetch_and_deserialize(&self.url("/api/v1/faculties"), fetch)
    }

    /// All employees.
    pub fn get_employees<F: Fn(&str) -> Result<String, FetchError>>(&self, fetch: F) -> (r:
        Result<Vec<Employee>, FetcherError>)
        requires
            accepts(fetch, self.address("/api/v1/employees/all"@)),
        ensures
            fetched_as(fetch, self.address("/api/v1/employees/all"@), r),
    {
        Fetcher::fetch_and_deserialize(&self.url("/api/v1/employees/all"), fetch)
    }

    /// All student groups.
    pub fn get_groups<F: Fn(&str) -> Result<String, FetchError>>(&self, fetch: F) -> (r: Result<
        Vec<Group>,
        FetcherError,
    >)
        requires
            accepts(fetch, self.address("/api/v1/student-groups"@)),
        ensures
            fetched_as(fetch, self.address("/api/v1/student-groups"@), r),
    {
        Fetcher::fetch_and_deserialize(&self.url("/api/v1/student-groups"), fetch)
    }
}

/// A failure of the transport is the result of the call. Where the transport
/// can only fail for an address, what a call for that address returns is one
/// of those failures, handed on as it came: no value, and no other error.
pub proof fn lemma_transport_failure_is_handed_on<
    T: Decode,
    F: Fn(&str) -> Result<String, FetchError>,
>(fetch: F, url: Seq<char>, r: Result<T, FetcherError>)
    requires
        forall|got: Result<String, FetchError>| #[trigger] may_answer(fetch, url, got) ==> got is Err,
        fetched_as(fetch, url, r),
    ensures
        r matches Err(FetcherError::Fetch(e)) && may_answer(fetch, url, Err(e)),
{
    let got = choose|got: Result<String, FetchError>| #[trigger]
        may_answer(fetch, url, got) && outcome_is(r, response_decoded::<T>(got));
    assert(got is Err);
}

/// A failure of the transport is the result of the call for the number of
/// the week too.
pub proof fn lemma_transport_failure_is_handed_on_for_week_number<
    F: Fn(&str) -> Result<String, FetchError>,
>(fetch: F, url: Seq<char>, r: Result<u32, FetcherError>)
    requires
        forall|got: Result<String, FetchError>| #[trigger] may_answer(fetch, url, got) ==> got is Err,
        fetched_as_week_number(fetch, url, r),
    ensures
        r matches Err(FetcherError::Fetch(e)) && may_answer(fetch, url, Err(e)),
{
    let got = choose|got: Result<String, FetchError>| #[trigger]
        may_answer(fetch, url, got) && r == week_number_response(got);
    assert(got is Err);
}

/// Text that is not JSON gives nothing. Where the transport can only answer
/// with text that does not parse, the call returns `MalformedJson`: for a
/// list no item comes back, not even those that stood before the fault.
pub proof fn lemma_malformed_json_gives_nothing<
    T: Decode,
    F: Fn(&str) -> Result<String, FetchError>,
>(fetch: F, url: Seq<char>, r: Result<T, FetcherError>)
    requires
        forall|got: Result<String, FetchError>| #[trigger]
            may_answer(fetch, url, got) ==> (got matches Ok(text) && json_parse(text@) is None),
        fetched_as(fetch, url, r),
    ensures
        r == Err::<T, FetcherError>(FetcherError::Decode(DecodeError::MalformedJson)),
{
    let got = choose|got: Result<String, FetchError>| #[trigger]
        may_answer(fetch, url, got) && outcome_is(r, response_decoded::<T>(got));
    assert(got matches Ok(text) && json_parse(text@) is None);
}

/// An answer of the right form is decoded. Where the transport can only
/// answer with JSON that has the shape of a `T`, the call returns a value,
/// and the value is what one of those answers decodes to.
pub proof fn lemma_well_formed_answer_is_decoded<
    T: Decode,
    F: Fn(&str) -> Result<String, FetchError>,
>(fetch: F, url: Seq<char>, r: Result<T, FetcherError>)
    requires
        forall|got: Result<String, FetchError>| #[trigger]
            may_answer(fetch, url, got) ==> (got matches Ok(text) && text_decoded::<T>(text@) is Ok),
        fetched_as(fetch, url, r),
    ensures
        r matches Ok(t) && exists|text: String| #[trigger]
            may_answer(fetch, url, Ok(text)) && text_decoded::<T>(text@) == Ok::<
                T::V,
                DecodeError,
            >(t.deep_view()),
{
    let got = choose|got: Result<String, FetchError>| #[trigger]
        may_answer(fetch, url, got) && outcome_is(r, response_decoded::<T>(got));
    assert(got matches Ok(text) && text_decoded::<T>(text@) is Ok);
    let text = got->Ok_0;
    assert(may_answer(fetch, url, Ok(text)));
}

/// An answer that is an unsigned number is read. Where the transport can
/// only answer with text that reads as a number of 32 bits, the call for the
/// number of the week returns the number that one of those answers reads as.
pub proof fn lemma_week_number_is_read<F: Fn(&str) -> Result<String, FetchError>>(
    fetch: F,
    url: Seq<char>,
    r: Result<u32, FetcherError>,
)
    requires
        forall|got: Result<String, FetchError>| #[trigger]
            may_answer(fetch, url, got) ==> (got matches Ok(text) && unsigned_of(text@) is Some),
        fetched_as_week_number(fetch, url, r),
    ensures
        r matches Ok(n) && exists|text: String| #[trigger]
            may_answer(fetch, url, Ok(text)) && unsigned_of(text@) == Some(n),
{
    let got = choose|got: Result<String, FetchError>| #[trigger]
        may_answer(fetch, url, got) && r == week_number_response(got);
    assert(got matches Ok(text) && unsigned_of(text@) is Some);
    let text = got->Ok_0;
    assert(may_answer(fetch, url, Ok(text)));
}

} // verus!
