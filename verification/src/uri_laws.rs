//! What URIs are read as.

use crate::request_laws::lemma_read_plain_url;
use crate::text::before;
use crate::text::lemma_position;
use crate::text::lemma_position_is;
use crate::text::position;
use crate::uri::UriParts;
use crate::uri::fits;
use crate::uri::is_path_and_query;
use crate::uri::is_path_char;
use crate::uri::is_plain_host;
use crate::uri::is_query_char;
use crate::uri::read_uri;
use crate::uri::with_path;
use vstd::prelude::*;

verus! {

/// All characters may stand in a path but control characters, spaces and five others, and all in a
/// query but control characters, spaces and four others.
pub proof fn law_uri_characters(c: char)
    ensures
        is_path_char(c) <==> !(c <= ' ' || c == '#' || c == '<' || c == '>' || c == '?' || c == '`'
            || c == '\u{7f}'),
        is_query_char(c) <==> !(c <= ' ' || c == '"' || c == '#' || c == '<' || c == '>' || c
            == '\u{7f}'),
{
}

/// Whether three texts are a path, which may be empty, a query with its question mark, if there is
/// one, and a fragment with its number sign, if there is one.
pub open spec fn are_parts(path: Seq<char>, query: Seq<char>, fragment: Seq<char>) -> bool {
    &&& path.len() > 0 ==> path[0] == '/'
    &&& forall|i: int| 0 <= i < path.len() ==> is_path_char(#[trigger] path[i])
    &&& query.len() > 0 ==> query[0] == '?'
    &&& forall|i: int| 1 <= i < query.len() ==> is_query_char(#[trigger] query[i])
    &&& fragment.len() > 0 ==> fragment[0] == '#'
}

proof fn lemma_with_path(
    host: Option<Seq<char>>,
    path: Seq<char>,
    query: Seq<char>,
    fragment: Seq<char>,
)
    requires
        are_parts(path, query, fragment),
    ensures
        with_path(host, path + query + fragment) == Some(
            UriParts {
                host,
                path: if path.len() == 0 {
                    "/"@
                } else {
                    path
                },
                path_and_query: Some(
                    if path.len() == 0 && query.len() == 0 {
                        "/"@
                    } else {
                        path + query
                    },
                ),
            },
        ),
{
    let target = path + query;
    let whole = target + fragment;
    let n = path.len() as int;
    assert forall|i: int| 0 <= i < target.len() implies whole[i] != '#' by {
        assert(whole[i] == target[i]);
        if i < n {
            assert(target[i] == path[i]);
        } else {
            assert(target[i] == query[i - n]);
        }
    }
    if fragment.len() > 0 {
        assert(whole[target.len() as int] == fragment[0]);
    }
    lemma_position_is(whole, '#', target.len() as int);
    assert(before(whole, '#') =~= target);
    assert forall|i: int| 0 <= i < n implies target[i] != '?' by {
        assert(target[i] == path[i]);
    }
    if query.len() > 0 {
        assert(target[n] == query[0]);
    }
    lemma_position_is(target, '?', n);
    assert(before(target, '?') =~= path);
    assert(is_path_and_query(target)) by {
        assert forall|i: int| 0 <= i < position(target, '?') implies is_path_char(
            #[trigger] target[i],
        ) by {
            assert(target[i] == path[i]);
        }
        assert forall|i: int| position(target, '?') < i < target.len() implies is_query_char(
            #[trigger] target[i],
        ) by {
            assert(target[i] == query[i - n]);
        }
    }
}

/// A path is read as itself, with its query and without its fragment.
pub proof fn law_path_is_read(path: Seq<char>, query: Seq<char>, fragment: Seq<char>)
    requires
        are_parts(path, query, fragment),
        path.len() > 0,
        fits(path + query + fragment),
    ensures
        read_uri(path + query + fragment) == Some(
            UriParts { host: None, path, path_and_query: Some(path + query) },
        ),
{
    reveal_strlit("/");
    let whole = path + query + fragment;
    assert(whole[0] == path[0]);
    assert(whole.subrange(0, 1) =~= "/"@);
    lemma_with_path(None, path, query, fragment);
}

/// An `http` or `https` URL with a plain host is read as that host, as it is written, and as its
/// path with its query and without its fragment; the path is `/` where there is none.
pub proof fn law_url_is_read(
    scheme: Seq<char>,
    name: Seq<char>,
    path: Seq<char>,
    query: Seq<char>,
    fragment: Seq<char>,
)
    requires
        scheme == "https://"@ || scheme == "http://"@,
        is_plain_host(name),
        are_parts(path, query, fragment),
        fits(scheme + (name + (path + query + fragment))),
    ensures
        read_uri(scheme + (name + (path + query + fragment))) == Some(
            UriParts {
                host: Some(name),
                path: if path.len() == 0 {
                    "/"@
                } else {
                    path
                },
                path_and_query: Some(
                    if path.len() == 0 && query.len() == 0 {
                        "/"@
                    } else {
                        path + query
                    },
                ),
            },
        ),
{
    let rest = path + query + fragment;
    if path.len() > 0 {
        assert(rest[0] == path[0]);
    } else if query.len() > 0 {
        assert(rest[0] == query[0]);
    } else if fragment.len() > 0 {
        assert(rest[0] == fragment[0]);
    }
    lemma_read_plain_url(scheme, name, rest);
    lemma_with_path(Some(name), path, query, fragment);
}

/// A text that starts with a slash is not read where a character stands in it that may not stand
/// in a path, and no question mark or number sign comes before it.
pub proof fn law_bad_path_is_refused(start: Seq<char>, c: char, rest: Seq<char>)
    requires
        start.len() > 0,
        start[0] == '/',
        forall|i: int| 0 <= i < start.len() ==> #[trigger] start[i] != '?' && start[i] != '#',
        !is_path_char(c),
        c != '?',
        c != '#',
    ensures
        read_uri(start + seq![c] + rest) is None,
{
    reveal_strlit("/");
    let whole = start + seq![c] + rest;
    let n = start.len() as int;
    assert(whole.subrange(0, 1) =~= "/"@);
    lemma_position(whole, '#');
    let a = position(whole, '#');
    if a <= n {
        assert(whole[a] == if a < n { start[a] } else { c });
    }
    let target = before(whole, '#');
    lemma_position(target, '?');
    let b = position(target, '?');
    if b <= n {
        assert(target[b] == whole[b]);
        assert(whole[b] == if b < n { start[b] } else { c });
    }
    assert(target[n] == c);
}

} // verus!
