//! The `pkcs11:` URI as a whole: its shape, and the attributes in it.

use vstd::prelude::*;
use crate::attributes::{
    parsed_path, parsed_query, ParseError, ParseErrorView, PathAttributes, PathAttributesView,
    QueryAttributes, QueryAttributesView,
};
use crate::text::{chars_of, same_text};

verus! {

/// The components of a URI reference, as text.
#[derive(Clone, Debug, PartialEq, Eq)]
pub struct UriParts {
    /// The scheme; a registered scheme is spelled in lower case.
    pub scheme: Option<String>,
    /// The authority, where the reference has one.
    pub authority: Option<String>,
    /// The segments of the path.
    pub segments: Vec<String>,
    /// The query, without its leading `?`.
    pub query: Option<String>,
}

/// What a [`UriParts`] holds, as mathematical values.
pub struct UriPartsView {
    pub scheme: Option<Seq<char>>,
    pub authority: Option<Seq<char>>,
    pub segments: Seq<Seq<char>>,
    pub query: Option<Seq<char>>,
}

impl View for UriParts {
    type V = UriPartsView;

    open spec fn view(&self) -> UriPartsView {
        UriPartsView {
            scheme: match self.scheme {
                Some(s) => Some(s@),
                None => None,
            },
            authority: match self.authority {
                Some(a) => Some(a@),
                None => None,
            },
            segments: Seq::new(self.segments@.len(), |i: int| self.segments@[i]@),
            query: match self.query {
                Some(q) => Some(q@),
                None => None,
            },
        }
    }
}

/// `uriparse::URIReferenceError`, the reason why a text is no URI reference,
/// is carried through as it is.
#[verifier::external_type_specification]
#[verifier::external_body]
pub struct ExUriReferenceError(uriparse::URIReferenceError);

/// The components that `uriparse` finds in `text`, or nothing where it
/// refuses `text` as a URI reference.
pub uninterp spec fn uri_reference(text: Seq<char>) -> Option<UriPartsView>;

/// Whether a character has the Unicode property `White_Space`: the controls
/// from tab to carriage return, the blank, next line, the no-break blanks,
/// the blanks of fixed width, and the line and paragraph separators.
pub open spec fn is_white_space(c: char) -> bool {
    ||| '\u{9}' <= c <= '\u{d}'
    ||| c == ' '
    ||| c == '\u{85}'
    ||| c == '\u{a0}'
    ||| c == '\u{1680}'
    ||| '\u{2000}' <= c <= '\u{200a}'
    ||| c == '\u{2028}'
    ||| c == '\u{2029}'
    ||| c == '\u{202f}'
    ||| c == '\u{205f}'
    ||| c == '\u{3000}'
}

/// `char::is_whitespace` tells whether a character has the Unicode property
/// `White_Space`, which `is_white_space` spells out.
pub assume_specification[ char::is_whitespace ](c: char) -> (white: bool)
    ensures
        white == is_white_space(c),
;

/// Calls `uriparse::URIReference::try_from` and copies out, as text, the
/// scheme, the authority, the path's segments and the query of what it
/// returns. The contract only gives that result its name.
#[verifier::external_body]
fn parse_uri_reference(text: &str) -> (parts: Result<UriParts, uriparse::URIReferenceError>)
    ensures
        parts matches Ok(p) ==> uri_reference(text@) == Some(p@),
        parts is Err ==> uri_reference(text@) is None,
{
    let uri = uriparse::URIReference::try_from(text)?;
    Ok(UriParts {
        scheme: uri.scheme().map(|s| s.as_str().to_string()),
        authority: uri.authority().map(|a| a.to_string()),
        segments: uri.path().segments().iter().map(|s| s.as_str().to_string()).collect(),
        query: uri.query().map(|q| q.as_str().to_string()),
    })
}

/// Calls `String::push`: `c` is appended to `text`.
#[verifier::external_body]
fn push_char(text: &mut String, c: char)
    ensures
        final(text)@ == old(text)@.push(c),
{
    text.push(c)
}

/// `s` without its whitespace characters.
pub open spec fn without_whitespace(s: Seq<char>) -> Seq<char>
    decreases s.len(),
{
    if s.len() == 0 {
        Seq::empty()
    } else if is_white_space(s.last()) {
        without_whitespace(s.drop_last())
    } else {
        without_whitespace(s.drop_last()).push(s.last())
    }
}

/// Removes every whitespace character from `s`.
pub fn strip_whitespace(s: &str) -> (stripped: String)
    ensures
        stripped@ == without_whitespace(s@),
{
    let chars = chars_of(s);
    let mut stripped = String::new();
    let mut i: usize = 0;
    while i < chars.len()
        invariant
            i <= chars.len(),
            stripped@ == without_whitespace(chars@.take(i as int)),
        decreases chars.len() - i,
    {
        let c = chars[i];
        assert(chars@.take(i + 1).drop_last() =~= chars@.take(i as int));
        if !c.is_whitespace() {
            push_char(&mut stripped, c);
        }
        i += 1;
    }
    assert(chars@.take(chars.len() as int) =~= chars@);
    stripped
}

/// A parsed `pkcs11:` URI.
#[derive(Clone, Debug, PartialEq, Eq)]
pub struct Pkcs11Uri {
    pub path_attributes: PathAttributes,
    pub query_attributes: QueryAttributes,
    /// The text that was parsed, without its whitespace.
    pub raw_uri: String,
}

/// What a [`Pkcs11Uri`] holds, as mathematical values.
pub struct Pkcs11UriView {
    pub path_attributes: PathAttributesView,
    pub query_attributes: QueryAttributesView,
    pub raw_uri: Seq<char>,
}

impl View for Pkcs11Uri {
    type V = Pkcs11UriView;

    open spec fn view(&self) -> Pkcs11UriView {
        Pkcs11UriView {
            path_attributes: self.path_attributes@,
            query_attributes: self.query_attributes@,
            raw_uri: self.raw_uri@,
        }
    }
}

/// The mathematical value of a parse result.
pub open spec fn uri_outcome(r: Result<Pkcs11Uri, ParseError>) -> Result<
    Pkcs11UriView,
    ParseErrorView,
> {
    match r {
        Ok(uri) => Ok(uri@),
        Err(e) => Err(e@),
    }
}

/// The query text of a reference; a reference without a query has the empty
/// one.
pub open spec fn query_text(parts: UriPartsView) -> Seq<char> {
    match parts.query {
        Some(q) => q,
        None => Seq::empty(),
    }
}

/// The URI that the components `parts` of the text `raw` make up. The checks
/// come in this order: the text is a URI reference at all, its scheme is
/// `pkcs11`, it has no authority, its path is one segment, that segment is a
/// list of path attributes, the query is a list of query attributes.
pub open spec fn assembled(parts: Option<UriPartsView>, raw: Seq<char>) -> Result<
    Pkcs11UriView,
    ParseErrorView,
> {
    match parts {
        None => Err(ParseErrorView::MalformedUri),
        Some(p) => if p.scheme != Some("pkcs11"@) {
            Err(ParseErrorView::WrongScheme)
        } else if p.authority is Some {
            Err(ParseErrorView::UnexpectedAuthority)
        } else if p.segments.len() != 1 {
            Err(ParseErrorView::BadPathShape)
        } else {
            match parsed_path(p.segments[0]) {
                Err(e) => Err(e),
                Ok(path) => match parsed_query(query_text(p)) {
                    Err(e) => Err(e),
                    Ok(query) => Ok(
                        Pkcs11UriView { path_attributes: path, query_attributes: query, raw_uri: raw },
                    ),
                },
            }
        },
    }
}

/// The URI that `text` spells, once its whitespace is gone.
pub open spec fn parsed_uri(text: Seq<char>) -> Result<Pkcs11UriView, ParseErrorView> {
    assembled(uri_reference(without_whitespace(text)), without_whitespace(text))
}

impl Pkcs11Uri {
    /// Builds the URI from the components of a URI reference and the text
    /// they were found in; `None` stands for a text that is no URI reference.
    pub fn from_parts(parts: Option<UriParts>, raw_uri: String) -> (uri: Result<
        Pkcs11Uri,
        ParseError,
    >)
        ensures
            uri_outcome(uri) == assembled(
                match parts {
                    Some(p) => Some(p@),
                    None => None,
                },
                raw_uri@,
            ),
    {
        let parts = match parts {
            Some(parts) => parts,
            None => return Err(ParseError::MalformedUri),
        };
        match &parts.scheme {
            Some(scheme) => {
                if !same_text(scheme.as_str(), "pkcs11") {
                    return Err(ParseError::WrongScheme);
                }
            },
            None => {
                return Err(ParseError::WrongScheme);
            },
        }
        if parts.authority.is_some() {
            return Err(ParseError::UnexpectedAuthority);
        }
        if parts.segments.len() != 1 {
            return Err(ParseError::BadPathShape);
        }
        let path_attributes = match PathAttributes::try_from(parts.segments[0].as_str()) {
            Ok(attributes) => attributes,
            Err(e) => return Err(e),
        };
        let query_attributes = match &parts.query {
            Some(query) => QueryAttributes::try_from(query.as_str()),
            None => Ok(QueryAttributes::new()),
        };
        let query_attributes = match query_attributes {
            Ok(attributes) => attributes,
            Err(e) => return Err(e),
        };
        Ok(Pkcs11Uri { path_attributes, query_attributes, raw_uri })
    }

    /// Parses the text of a `pkcs11:` URI. Whitespace anywhere in the text is
    /// dropped first, so a URI may be wrapped over several lines.
    pub fn try_from(uri_str: &str) -> (uri: Result<Pkcs11Uri, ParseError>)
        ensures
            uri_outcome(uri) == parsed_uri(uri_str@),
    {
        let uri_string = strip_whitespace(uri_str);
        let parts = match parse_uri_reference(uri_string.as_str()) {
            Ok(parts) => Some(parts),
            Err(_) => None,
        };
        Pkcs11Uri::from_parts(parts, uri_string)
    }
}

/// Parsing is a function of the text: two results for the same text are the
/// same value.
pub proof fn lemma_parsing_is_repeatable(
    text: Seq<char>,
    first: Result<Pkcs11Uri, ParseError>,
    second: Result<Pkcs11Uri, ParseError>,
)
    requires
        uri_outcome(first) == parsed_uri(text),
        uri_outcome(second) == parsed_uri(text),
    ensures
        uri_outcome(first) == uri_outcome(second),
{
}

} // verus!
