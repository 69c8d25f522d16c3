use vstd::prelude::*;
use vstd::string::StringExecFns;

verus! {

/// A pair of assets, where the base is priced in terms of the quote.
#[derive(Clone, Debug, PartialEq, Eq)]
pub struct CurrencyPair {
    pub base: String,
    pub quote: String,
}

impl CurrencyPair {
    /// The message's fully qualified protobuf name.
    pub fn full_name() -> (r: String)
        ensures
            r@ == "connect.types.v2.CurrencyPair"@,
    {
        String::from_str("connect.types.v2.CurrencyPair")
    }

    /// The type URL under which the message is packed into an `Any`.
    pub fn type_url() -> (r: String)
        ensures
            r@ == "/connect.types.v2.CurrencyPair"@,
    {
        String::from_str("/connect.types.v2.CurrencyPair")
    }
}

} // verus!
