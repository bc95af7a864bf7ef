//! How a value says what is asked of a parameterized endpoint.

use vstd::prelude::*;

verus! {

/// A value that selects what a parameterized endpoint is asked for. Each
/// carries the one identifier it needs and writes it into the end of the
/// address as it is: nothing is escaped, so the identifier must need no
/// escaping.
pub trait QueryParams {
    /// The end of the address: the resource, a question mark, the name of the
    /// parameter, an equals sign and the identifier.
    spec fn query_suffix(&self) -> Seq<char>;

    /// Writes the end of the address.
    fn get_query_params(&self) -> (r: String)
        ensures
            r@ == self.query_suffix(),
    ;
}

} // verus!
