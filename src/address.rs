use vstd::prelude::*;

verus! {

#[verifier::external_type_specification]
#[verifier::external_body]
pub struct ExParseError(url::ParseError);

/// What the URL parser makes of a string: `None` where the string is not an
/// absolute URL, else the URL's serialized form.
pub uninterp spec fn parsed_url(s: Seq<char>) -> Option<Seq<char>>;

/// Relies on `url::Url::parse` and `Url`'s conversion into `String`: whether
/// `s` parses and the serialization it yields depend on `s` alone.
#[verifier::external_body]
pub(crate) fn parse_url(s: &str) -> (r: Result<String, url::ParseError>)
    ensures
        r is Ok <==> parsed_url(s@) is Some,
        r is Ok ==> parsed_url(s@) == Some(r->Ok_0@),
{
    url::Url::parse(s).map(String::from)
}

} // verus!
