//! Where the server is reached: the address of its socket, made from a
//! host name and a port and checked by the `url` crate.

use vstd::prelude::*;
use vstd::string::*;

verus! {

/// Why there is no address.
#[derive(Debug, Clone, Copy, PartialEq, Eq, Structural)]
pub enum AddressError {
    /// Host and port do not make a URL.
    Invalid,
}

/// What `url` makes of a text: the URL in its normal form, or `None`
/// where the text is no absolute URL.
pub uninterp spec fn normalized_url(text: Seq<char>) -> Option<Seq<char>>;

#[verifier::external_type_specification]
#[verifier::external_body]
pub struct ExUrlParseError(url::ParseError);

/// `url::Url::parse`, and the URL's serialization taken out of it. The
/// contract claims only that the outcome is a function of the text.
#[verifier::external_body]
fn parse_url(text: &str) -> (parsed: Result<String, url::ParseError>)
    ensures
        parsed matches Ok(address) ==> normalized_url(text@) == Some(address@),
        parsed is Err ==> normalized_url(text@) is None,
{
    url::Url::parse(text).map(String::from)
}

/// The location of a server's socket as it is written: `ws://`, the host,
/// a colon and the port.
pub open spec fn location_text(hostname: Seq<char>, port: Seq<char>) -> Seq<char> {
    "ws://"@ + hostname + ":"@ + port
}

/// The address under which a location is reached, or why there is none.
pub open spec fn checked_address(location: Seq<char>) -> Result<Seq<char>, AddressError> {
    match normalized_url(location) {
        Some(address) => Ok(address),
        None => Err(AddressError::Invalid),
    }
}

/// The mathematical value of an address or the error met in its place.
pub open spec fn address_view(result: Result<String, AddressError>) -> Result<
    Seq<char>,
    AddressError,
> {
    match result {
        Ok(address) => Ok(address@),
        Err(error) => Err(error),
    }
}

/// Writes the location of a server's socket.
pub fn server_location(hostname: &str, port: &str) -> (location: String)
    ensures
        location@ == location_text(hostname@, port@),
{
    let mut location = String::from_str("ws://");
    location.append(hostname);
    location.append(":");
    location.append(port);
    location
}

/// Checks a location and gives the address under which it is reached.
pub fn check_address(location: &str) -> (result: Result<String, AddressError>)
    ensures
        address_view(result) == checked_address(location@),
{
    match parse_url(location) {
        Ok(address) => Ok(address),
        Err(_) => Err(AddressError::Invalid),
    }
}

/// The address of the server on a host and a port.
pub fn server_address(hostname: &str, port: &str) -> (result: Result<String, AddressError>)
    ensures
        address_view(result) == checked_address(location_text(hostname@, port@)),
{
    let location = server_location(hostname, port);
    check_address(location.as_str())
}

} // verus!
