use vstd::prelude::*;
use vstd::string::StrSliceExecFns;

verus! {

/// Declares `url::ParseError` as a type whose inside is not looked at.
#[verifier::external_type_specification]
#[verifier::external_body]
pub struct ExParseError(url::ParseError);

/// The longest address, and the longest query, in characters, for which a
/// query is added to an address.
///
/// A `url::Url` holds its address in at most four gibibytes, and writes a
/// character in up to twelve bytes: a character of four bytes, each as a
/// percent sign and two digits. An address and a query of this length make
/// less than a tenth of what a `Url` can hold.
pub const MAX_ADDRESS: usize = 0x0100_0000;

/// The text in which `url::Url` writes an absolute address after parsing
/// it, or `None` where it reports an error.
pub uninterp spec fn normalized(address: Seq<char>) -> Option<Seq<char>>;

/// The text of the address that `url::Url::join` makes of a base address
/// and a reference, or `None` where the base cannot be parsed or the two
/// cannot be joined.
pub uninterp spec fn joined(base: Seq<char>, reference: Seq<char>) -> Option<Seq<char>>;

/// The text of an address after `url::Url::set_query` gave it a query, or
/// `None` where the address cannot be parsed.
pub uninterp spec fn with_query(address: Seq<char>, query: Seq<char>) -> Option<Seq<char>>;

/// Calls `url::Url::parse` and gives back the address as the `Url` writes
/// it.
///
/// Claims that the outcome is a function of the text.
#[verifier::external_body]
fn parse_url(address: &str) -> (r: Result<String, url::ParseError>)
    ensures
        match r {
            Ok(text) => normalized(address@) == Some(text@),
            Err(_) => normalized(address@) is None,
        },
{
    Ok(url::Url::parse(address)?.into())
}

/// Calls `url::Url::parse` on the base and `url::Url::join` with the
/// reference, and gives back the new address as the `Url` writes it.
///
/// Claims that the outcome is a function of the two texts.
#[verifier::external_body]
fn join_url(base: &str, reference: &str) -> (r: Result<String, url::ParseError>)
    ensures
        match r {
            Ok(text) => joined(base@, reference@) == Some(text@),
            Err(_) => joined(base@, reference@) is None,
        },
{
    Ok(url::Url::parse(base)?.join(reference)?.into())
}

/// Calls `url::Url::parse` on the address and `url::Url::set_query` with the
/// query, and gives back the new address as the `Url` writes it.
///
/// Claims that the outcome is a function of the two texts. The address and
/// the query are to have at most `MAX_ADDRESS` characters each: `set_query`
/// does not return where the address that it makes, with every character
/// written out in up to twelve bytes, is longer than a `Url` can hold.
#[verifier::external_body]
fn query_url(address: &str, query: &str) -> (r: Result<String, url::ParseError>)
    requires
        address@.len() <= MAX_ADDRESS,
        query@.len() <= MAX_ADDRESS,
    ensures
        match r {
            Ok(text) => with_query(address@, query@) == Some(text@),
            Err(_) => with_query(address@, query@) is None,
        },
{
    let mut url = url::Url::parse(address)?;
    url.set_query(Some(query));
    Ok(url.into())
}

/// The address as `url::Url` writes it.
///
/// Returns `None` exactly where the text is no absolute address.
pub fn normalize(address: &str) -> (r: Option<String>)
    ensures
        r.deep_view() == normalized(address@),
{
    match parse_url(address) {
        Ok(text) => Some(text),
        Err(_) => None,
    }
}

/// The address that a reference names when read against a base address.
///
/// Returns `None` exactly where the base is no absolute address or the
/// reference cannot be joined to it.
pub fn join(base: &str, reference: &str) -> (r: Option<String>)
    ensures
        r.deep_view() == joined(base@, reference@),
{
    match join_url(base, reference) {
        Ok(text) => Some(text),
        Err(_) => None,
    }
}

/// The address with its query replaced by `query`.
///
/// Returns `None` where the address or the query is longer than
/// `MAX_ADDRESS` characters, or where the address cannot be parsed.
pub fn set_query(address: &str, query: &str) -> (r: Option<String>)
    ensures
        r.deep_view() == if address@.len() <= MAX_ADDRESS && query@.len() <= MAX_ADDRESS {
            with_query(address@, query@)
        } else {
            None
        },
{
    if address.unicode_len() > MAX_ADDRESS || query.unicode_len() > MAX_ADDRESS {
        return None;
    }
    match query_url(address, query) {
        Ok(text) => Some(text),
        Err(_) => None,
    }
}

} // verus!
