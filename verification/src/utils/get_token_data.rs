use vstd::prelude::*;

use crate::error::ErrorCode;

verus! {

/// The metadata recorded for a new token. No creators, collection or uses
/// are ever attached, so they have no field here.
pub struct TokenData {
    pub name: String,
    pub symbol: String,
    pub uri: String,
    pub seller_fee_basis_points: u16,
    pub description: String,
}

/// A token's metadata can be recorded only when its name, ticker and uri
/// are all non-empty.
pub open spec fn token_inputs_valid(name: Seq<char>, ticker: Seq<char>, uri: Seq<char>) -> bool {
    name.len() != 0 && uri.len() != 0 && ticker.len() != 0
}

/// Checks the inputs of a new token and gathers them into its metadata,
/// with the ticker as symbol and no seller fee.
pub fn get_token_data(name: &str, ticker: &str, uri: &str, description: &str) -> (r: Result<
    TokenData,
    ErrorCode,
>)
    ensures
        r is Ok <==> token_inputs_valid(name@, ticker@, uri@),
        r is Ok <==> (name@.len() != 0 && ticker@.len() != 0 && uri@.len() != 0),
        r is Err ==> r->Err_0 == ErrorCode::InvalidInputs,
        r matches Ok(d) ==> {
            &&& d.name@ == name@
            &&& d.symbol@ == ticker@
            &&& d.uri@ == uri@
            &&& d.seller_fee_basis_points == 0
            &&& d.description@ == description@
        },
{
    if !(!name.is_empty() && !uri.is_empty() && !ticker.is_empty()) {
        return Err(ErrorCode::InvalidInputs);
    }
    Ok(TokenData {
        name: name.to_owned(),
        symbol: ticker.to_owned(),
        uri: uri.to_owned(),
        seller_fee_basis_points: 0,
        description: description.to_owned(),
    })
}

} // verus!
