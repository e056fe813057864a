//! URLs as the library sees them: the serialization that the `url` crate
//! produces, with the crate's parser and query decoder behind trusted items.

use vstd::prelude::*;

verus! {

#[verifier::external_type_specification]
#[verifier::external_body]
pub struct ExParseError(url::ParseError);

/// What `url::Url::parse` gives for an input: the serialization of the parsed
/// URL, or the parse error.
pub uninterp spec fn url_parse(input: Seq<char>) -> Result<Seq<char>, url::ParseError>;

/// What `url::Url::parse_with_params` gives for an input and a list of
/// name/value pairs: the serialization of the URL with the pairs appended to
/// its query, or the parse error.
pub uninterp spec fn url_parse_with_params(
    input: Seq<char>,
    params: Seq<(Seq<char>, Seq<char>)>,
) -> Result<Seq<char>, url::ParseError>;

/// The name/value pairs that `form_urlencoded::parse` decodes from a query.
pub uninterp spec fn form_urlencoded_pairs(query: Seq<char>) -> Seq<(Seq<char>, Seq<char>)>;

/// Characters in a list of name/value pairs, counting a separator after
/// each name and each value.
pub open spec fn pairs_len(params: Seq<(Seq<char>, Seq<char>)>) -> nat
    decreases params.len(),
{
    if params.len() == 0 {
        0
    } else {
        params[0].0.len() + params[0].1.len() + 2 + pairs_len(params.drop_first())
    }
}

/// An input and query pairs small enough that the URL built from them stays
/// within the 32-bit offsets that the `url` crate indexes a URL with (its
/// query editing unwraps a `u32` conversion of the URL's length, and panics
/// beyond 4 GiB). No character grows to more than 128 bytes in the built
/// URL: percent-encoding turns one into at most 12, and host name mapping
/// into at most a few dozen.
pub open spec fn fits_url_offsets(input: Seq<char>, params: Seq<(Seq<char>, Seq<char>)>) -> bool {
    128 * (input.len() + pairs_len(params)) + 128 <= u32::MAX
}

/// A successful parse with serialization `s`.
pub open spec fn parsed_ok(s: Seq<char>) -> Result<Seq<char>, url::ParseError> {
    Ok(s)
}

/// A failed parse with error `e`.
pub open spec fn parsed_err(e: url::ParseError) -> Result<Seq<char>, url::ParseError> {
    Err(e)
}

/// A serialization that the `url` parser accepts and reproduces unchanged.
pub open spec fn is_url_serialization(s: Seq<char>) -> bool {
    url_parse(s) == parsed_ok(s)
}

/// Calls `url::Url::parse` and keeps the serialization of the result.
///
/// Trusted: the result is the one named `url_parse`, and the serialization of
/// a parsed URL parses back to itself (the url crate's
/// `Url::check_invariants` asserts exactly this of every `Url`).
#[verifier::external_body]
fn parse_url(input: &str) -> (res: Result<String, url::ParseError>)
    ensures
        match res {
            Ok(s) => url_parse(input@) == parsed_ok(s@),
            Err(e) => url_parse(input@) == parsed_err(e),
        },
        res matches Ok(s) ==> is_url_serialization(s@),
{
    url::Url::parse(input).map(|u| u.into())
}

/// Calls `url::Url::parse_with_params` and keeps the serialization.
///
/// Trusted: the result is the one named `url_parse_with_params`; as its source
/// shows, it first runs `Url::parse` on the input and fails exactly when that
/// fails, with the same error; a URL it builds parses back to itself. Inputs
/// whose URL would outgrow the crate's 32-bit offsets, on which it panics,
/// are excluded.
#[verifier::external_body]
fn parse_url_with_params(input: &str, params: &Vec<(String, String)>) -> (res: Result<String, url::ParseError>)
    requires
        fits_url_offsets(input@, params.deep_view()),
    ensures
        match res {
            Ok(s) => url_parse_with_params(input@, params.deep_view())
                == parsed_ok(s@),
            Err(e) => url_parse_with_params(input@, params.deep_view())
                == parsed_err(e),
        },
        res is Ok <==> url_parse(input@) is Ok,
        res matches Err(e) ==> url_parse(input@) == parsed_err(e),
        res matches Ok(s) ==> is_url_serialization(s@),
{
    url::Url::parse_with_params(input, params.iter()).map(|u| u.into())
}

/// Calls `form_urlencoded::parse` (re-exported by `url`) on a query string.
///
/// Trusted: the pairs are the ones named `form_urlencoded_pairs`, and an empty
/// query has no pairs (the parser's iterator stops at once on empty input).
#[verifier::external_body]
fn decode_query_pairs(query: &str) -> (res: Vec<(String, String)>)
    ensures
        res.deep_view() == form_urlencoded_pairs(query@),
        query@.len() == 0 ==> res@.len() == 0,
{
    url::form_urlencoded::parse(query.as_bytes()).into_owned().collect()
}

/// A URL held by its serialization, which the `url` parser reproduces.
pub struct ParsedUrl {
    serialization: String,
}

impl View for ParsedUrl {
    type V = Seq<char>;

    closed spec fn view(&self) -> Seq<char> {
        self.serialization@
    }
}

impl ParsedUrl {
    #[verifier::type_invariant]
    spec fn wf(self) -> bool {
        is_url_serialization(self.serialization@)
    }

    /// Parses `input` as an absolute URL.
    pub fn parse(input: &str) -> (res: Result<ParsedUrl, url::ParseError>)
        ensures
            match url_parse(input@) {
                Ok(s) => res matches Ok(u) && u@ == s,
                Err(e) => res == Err::<ParsedUrl, url::ParseError>(e),
            },
    {
        match parse_url(input) {
            Ok(s) => Ok(ParsedUrl { serialization: s }),
            Err(e) => Err(e),
        }
    }

    /// Parses `input` and appends `params` to its query.
    pub fn parse_with_params(input: &str, params: &Vec<(String, String)>) -> (res: Result<ParsedUrl, url::ParseError>)
        requires
            fits_url_offsets(input@, params.deep_view()),
        ensures
            match url_parse_with_params(input@, params.deep_view()) {
                Ok(s) => res matches Ok(u) && u@ == s,
                Err(e) => res == Err::<ParsedUrl, url::ParseError>(e),
            },
            res is Ok <==> url_parse(input@) is Ok,
            res matches Err(e) ==> url_parse(input@) == parsed_err(e),
    {
        match parse_url_with_params(input, params) {
            Ok(s) => Ok(ParsedUrl { serialization: s }),
            Err(e) => Err(e),
        }
    }

    /// The serialization of the URL.
    pub fn as_str(&self) -> (res: &str)
        ensures
            res@ == self@,
            is_url_serialization(self@),
    {
        proof {
            use_type_invariant(self);
        }
        self.serialization.as_str()
    }
}

impl Clone for ParsedUrl {
    fn clone(&self) -> (res: Self)
        ensures
            res@ == self@,
    {
        proof {
            use_type_invariant(self);
        }
        ParsedUrl { serialization: self.serialization.clone() }
    }
}

/// Decodes the name/value pairs of a URL query (`None` for a URL without
/// one), as `Url::query_pairs` does.
pub fn query_pairs(query: Option<&str>) -> (res: Vec<(String, String)>)
    ensures
        res.deep_view() == match query {
            Some(q) => form_urlencoded_pairs(q@),
            None => Seq::empty(),
        },
{
    match query {
        Some(q) => decode_query_pairs(q),
        None => {
            let v: Vec<(String, String)> = Vec::new();
            proof {
                assert(v.deep_view() =~= Seq::<(Seq<char>, Seq<char>)>::empty());
            }
            v
        },
    }
}

} // verus!
