//! URIs, as the rules read them.

use crate::text::before;
use crate::text::position;
use crate::text::stripped;
use vstd::prelude::*;
use vstd::string::*;
use vstd::utf8::encode_utf8;

verus! {

/// The parts of a URI that the rules read.
pub struct UriParts {
    pub host: Option<Seq<char>>,
    pub path: Seq<char>,
    pub path_and_query: Option<Seq<char>>,
}

/// A URI: the text that it is written as, and the parts that the rules read.
#[derive(Debug)]
pub struct Uri {
    pub text: String,
    pub host: Option<String>,
    pub path: String,
    pub path_and_query: Option<String>,
}

impl View for Uri {
    type V = UriParts;

    open spec fn view(&self) -> UriParts {
        UriParts {
            host: self.host.deep_view(),
            path: self.path@,
            path_and_query: self.path_and_query.deep_view(),
        }
    }
}

/// The parts of the URI that `http::Uri::from_str` makes of a text; `None` where it refuses
/// the text.
pub uninterp spec fn parsed_uri(text: Seq<char>) -> Option<UriParts>;

/// Whether a text is short enough for a URI: at most 65534 bytes of UTF-8.
pub open spec fn fits(text: Seq<char>) -> bool {
    encode_utf8(text).len() <= 65534
}

/// Whether a character may stand in a path.
pub open spec fn is_path_char(c: char) -> bool {
    ||| c == '!'
    ||| c == '"'
    ||| '$' <= c <= ';'
    ||| c == '='
    ||| '@' <= c <= '_'
    ||| 'a' <= c <= '~'
    ||| '\u{80}' <= c
}

/// Whether a character may stand in a query.
pub open spec fn is_query_char(c: char) -> bool {
    ||| c == '!'
    ||| '$' <= c <= ';'
    ||| c == '='
    ||| '?' <= c <= '~'
    ||| '\u{80}' <= c
}

/// Whether a text that has no fragment is a path, or a path with a query.
pub open spec fn is_path_and_query(s: Seq<char>) -> bool {
    &&& forall|i: int| 0 <= i < position(s, '?') ==> is_path_char(#[trigger] s[i])
    &&& forall|i: int| position(s, '?') < i < s.len() ==> is_query_char(#[trigger] s[i])
}

/// `s`, or `/` where `s` is empty.
pub open spec fn or_slash(s: Seq<char>) -> Seq<char> {
    if s.len() == 0 {
        "/"@
    } else {
        s
    }
}

/// The parts of a URI whose path, query and fragment are written as `rest`; `None` where that
/// is not a path.
pub open spec fn with_path(host: Option<Seq<char>>, rest: Seq<char>) -> Option<UriParts> {
    let target = before(rest, '#');
    if is_path_and_query(target) {
        Some(
            UriParts {
                host,
                path: or_slash(before(target, '?')),
                path_and_query: Some(or_slash(target)),
            },
        )
    } else {
        None
    }
}

/// Whether a text is a host name made of ASCII letters, digits, dots and hyphens.
pub open spec fn is_plain_host(host: Seq<char>) -> bool {
    &&& host.len() > 0
    &&& forall|i: int|
        0 <= i < host.len() ==> {
            ||| 'a' <= #[trigger] host[i] <= 'z'
            ||| 'A' <= host[i] <= 'Z'
            ||| '0' <= host[i] <= '9'
            ||| host[i] == '.'
            ||| host[i] == '-'
        }
}

/// What stands before the path, the query and the fragment.
pub open spec fn authority(s: Seq<char>) -> Seq<char> {
    before(before(before(s, '/'), '?'), '#')
}

/// What follows `http://` or `https://`.
pub open spec fn after_scheme(text: Seq<char>) -> Option<Seq<char>> {
    match stripped(text, "https://"@) {
        Some(rest) => Some(rest),
        None => stripped(text, "http://"@),
    }
}

/// Whether a text is an `http://` or `https://` URL with a plain host.
pub open spec fn is_plain_url(text: Seq<char>) -> bool {
    match after_scheme(text) {
        Some(rest) => is_plain_host(authority(rest)),
        None => false,
    }
}

/// The parts of a plain URL.
pub open spec fn plain_url(text: Seq<char>) -> Option<UriParts>
    recommends
        is_plain_url(text),
{
    let rest = after_scheme(text)->0;
    if fits(text) {
        with_path(Some(authority(rest)), rest.skip(authority(rest).len() as int))
    } else {
        None
    }
}

/// The parts of a URI that is only a path: a text that starts with `/`.
pub open spec fn path_only(text: Seq<char>) -> Option<UriParts> {
    if fits(text) {
        with_path(None, text)
    } else {
        None
    }
}

/// The parts of the URI that a text is read as; `None` where it is not one.
pub open spec fn read_uri(text: Seq<char>) -> Option<UriParts> {
    if "/"@.is_prefix_of(text) {
        path_only(text)
    } else if "?"@.is_prefix_of(text) {
        None
    } else if is_plain_url(text) {
        plain_url(text)
    } else {
        parsed_uri(text)
    }
}

/// The parts of a URI, where there is one.
pub open spec fn uri_parts(uri: Option<Uri>) -> Option<UriParts> {
    match uri {
        Some(uri) => Some(uri@),
        None => None,
    }
}

/// The text and the parts of a request target.
pub open spec fn target_of(uri: Uri) -> (Seq<char>, UriParts) {
    (uri.text@, uri@)
}

/// The text and the parts of a request target, where there is one.
pub open spec fn optional_target(uri: Option<Uri>) -> Option<(Seq<char>, UriParts)> {
    match uri {
        Some(uri) => Some(target_of(uri)),
        None => None,
    }
}

/// Whether the path with the query of a URI that has a host is a query alone, or would be read
/// as itself.
pub open spec fn reads_back(parts: UriParts) -> bool {
    parts.host is Some ==> (parts.path_and_query matches Some(target) ==> {
        ||| "?"@.is_prefix_of(target)
        ||| "/"@.is_prefix_of(target) && path_only(target) == Some(
            UriParts { host: None, path: parts.path, path_and_query: Some(target) },
        )
    })
}

/// Reads a text with `http::Uri::from_str`, and takes the host, the path, and the path with the
/// query out of the URI that it gives.
///
/// Three kinds of text are stated in full: one that starts with `/` is a path, one that starts
/// with `?` is refused, and an `http://` or `https://` URL with a plain host is taken apart as
/// written. Of every other text only this: the path with the query of a URI that has a host is
/// a query alone or would be read as itself, and a text that starts with `http://` has the parts
/// that it has with `https://` in its place, where that is short enough.
#[verifier::external_body]
fn parse_uri(text: &str) -> (uri: Option<Uri>)
    ensures
        uri_parts(uri) == parsed_uri(text@),
        uri matches Some(uri) ==> uri.text@ == text@,
        "/"@.is_prefix_of(text@) ==> uri_parts(uri) == path_only(text@),
        "?"@.is_prefix_of(text@) ==> uri is None,
        is_plain_url(text@) ==> uri_parts(uri) == plain_url(text@),
        uri matches Some(uri) ==> reads_back(uri@),
        stripped(text@, "http://"@) matches Some(rest) ==> (fits("https://"@ + rest) ==> uri_parts(
            uri,
        ) == parsed_uri("https://"@ + rest)),
{
    let uri: http::Uri = text.parse().ok()?;
    Some(Uri {
        text: text.to_owned(),
        host: uri.host().map(|host| host.to_owned()),
        path: uri.path().to_owned(),
        path_and_query: uri.path_and_query().map(|target| target.as_str().to_owned()),
    })
}

/// The bytes of two texts one behind the other.
proof fn lemma_encoded_length(a: Seq<char>, b: Seq<char>)
    ensures
        encode_utf8(a + b).len() == encode_utf8(a).len() + encode_utf8(b).len(),
    decreases a.len(),
{
    if a.len() == 0 {
        assert(a + b == b);
    } else {
        assert((a + b).drop_first() == a.drop_first() + b);
        lemma_encoded_length(a.drop_first(), b);
    }
}

/// What follows the scheme of a URL that is put together from both.
pub proof fn lemma_after_scheme(rest: Seq<char>)
    ensures
        stripped("https://"@ + rest, "https://"@) == Some(rest),
        stripped("http://"@ + rest, "https://"@) is None,
        stripped("http://"@ + rest, "http://"@) == Some(rest),
        after_scheme("https://"@ + rest) == Some(rest),
        after_scheme("http://"@ + rest) == Some(rest),
{
    reveal_strlit("https://");
    reveal_strlit("http://");
    let long = "https://"@ + rest;
    let short = "http://"@ + rest;
    assert(long.subrange(0, 8) == "https://"@);
    assert(long.skip(8) == rest);
    assert(short.subrange(0, 7) == "http://"@);
    assert(short.skip(7) == rest);
    if short.len() >= 8 {
        assert(short.subrange(0, 8)[4] == ':');
    }
}

/// `http://` and `https://` URLs are read alike.
proof fn lemma_schemes_alike(text: Seq<char>, rest: Seq<char>)
    requires
        stripped(text, "http://"@) == Some(rest),
        fits("https://"@ + rest),
    ensures
        is_plain_url(text) == is_plain_url("https://"@ + rest),
        is_plain_url(text) ==> plain_url(text) == plain_url("https://"@ + rest),
        !("/"@.is_prefix_of(text)) && !("?"@.is_prefix_of(text)),
        !("/"@.is_prefix_of("https://"@ + rest)) && !("?"@.is_prefix_of("https://"@ + rest)),
{
    reveal_strlit("https://");
    reveal_strlit("http://");
    reveal_strlit("/");
    reveal_strlit("?");
    lemma_after_scheme(rest);
    assert(text == "http://"@ + rest);
    lemma_encoded_length("https://"@, rest);
    lemma_encoded_length("http://"@, rest);
    lemma_encoded_length("http://"@.take(4), "://"@);
    reveal_strlit("://");
    assert("http://"@ == "http://"@.take(4) + "://"@);
    assert("https://"@ == "http://"@.take(4) + seq!['s'] + "://"@);
    lemma_encoded_length("http://"@.take(4) + seq!['s'], "://"@);
    lemma_encoded_length("http://"@.take(4), seq!['s']);
    assert(text[0] == 'h');
    assert(("https://"@ + rest)[0] == 'h');
}

impl Uri {
    /// Reads a URI.
    pub fn parse(text: &str) -> (uri: Option<Self>)
        ensures
            uri_parts(uri) == parsed_uri(text@),
            uri_parts(uri) == read_uri(text@),
            uri matches Some(uri) ==> uri.text@ == text@,
            uri matches Some(uri) ==> reads_back(uri@),
            stripped(text@, "http://"@) matches Some(rest) ==> (fits("https://"@ + rest)
                ==> read_uri(text@) == read_uri("https://"@ + rest)),
    {
        let uri = parse_uri(text);
        proof {
            if let Some(rest) = stripped(text@, "http://"@) {
                if fits("https://"@ + rest) {
                    lemma_schemes_alike(text@, rest);
                }
            }
        }
        uri
    }
}

} // verus!
