use vstd::prelude::*;
use crate::text::{
    char_index, concat2, find_char, from_chars, has_prefix, split_chars, split_on,
    starts_with_exec, str_eq, to_chars,
};

verus! {

/// Whether one `key=value` pair of a query string grants access: the key is
/// `access_token` or `token` (split at the first `=`) and the value is the
/// expected secret.
pub open spec fn pair_grants(pair: Seq<char>, tok: Seq<char>) -> bool {
    let e = char_index(pair, '=');
    e != -1 && {
        let k = pair.take(e);
        let v = pair.skip(e + 1);
        (k == "access_token"@ || k == "token"@) && v == tok
    }
}

/// Whether a query string grants access: some `&`-separated pair does.
pub open spec fn query_grants(q: Seq<char>, tok: Seq<char>) -> bool {
    exists|i: int| 0 <= i < split_on(q, '&').len() && pair_grants(#[trigger] split_on(q, '&')[i], tok)
}

/// Whether a request may pass. `/healthz` needs no credentials, and
/// neither does anything else while no token is set. Otherwise the
/// Authorization header must hold `Bearer` and the token, or, when
/// enabled, a query parameter may hold it instead.
pub open spec fn auth_allows(
    path: Seq<char>,
    authorization: Option<Seq<char>>,
    query: Option<Seq<char>>,
    token: Option<Seq<char>>,
    allow_query: bool,
) -> bool {
    if has_prefix(path, "/healthz"@) {
        true
    } else {
        match token {
            None => true,
            Some(t) => {
                let header_ok = match authorization {
                    Some(h) => h == "Bearer "@ + t,
                    None => false,
                };
                let query_ok = allow_query && match query {
                    Some(q) => query_grants(q, t),
                    None => false,
                };
                header_ok || query_ok
            },
        }
    }
}

fn pair_grants_exec(pair: &Vec<char>, tok: &str) -> (r: bool)
    ensures
        r == pair_grants(pair@, tok@),
{
    match find_char(pair, '=') {
        None => false,
        Some(e) => {
            proof {
                crate::text::lemma_char_index_props(pair@, '=');
            }
            let mut k: Vec<char> = Vec::new();
            let mut i: usize = 0;
            while i < e
                invariant
                    i <= e,
                    e < pair@.len(),
                    k@ == pair@.subrange(0, i as int),
                decreases e - i,
            {
                k.push(pair[i]);
                proof {
                    assert(pair@.subrange(0, i as int).push(pair@[i as int]) =~= pair@.subrange(
                        0,
                        i + 1 as int,
                    ));
                }
                i = i + 1;
            }
            let n = pair.len();
            let mut v: Vec<char> = Vec::new();
            let mut j: usize = e + 1;
            while j < n
                invariant
                    e + 1 <= j <= n,
                    n == pair@.len(),
                    v@ == pair@.subrange(e + 1 as int, j as int),
                decreases n - j,
            {
                v.push(pair[j]);
                proof {
                    assert(pair@.subrange(e + 1 as int, j as int).push(pair@[j as int])
                        =~= pair@.subrange(e + 1 as int, j + 1 as int));
                }
                j = j + 1;
            }
            proof {
                assert(k@ =~= pair@.take(e as int));
                assert(v@ =~= pair@.skip(e + 1 as int));
            }
            let ks = from_chars(&k);
            let vs = from_chars(&v);
            (str_eq(ks.as_str(), "access_token") || str_eq(ks.as_str(), "token")) && str_eq(
                vs.as_str(),
                tok,
            )
        },
    }
}

fn query_grants_exec(q: &str, tok: &str) -> (r: bool)
    ensures
        r == query_grants(q@, tok@),
{
    let qv = to_chars(q);
    let pairs = split_chars(&qv, '&');
    let mut i: usize = 0;
    while i < pairs.len()
        invariant
            i <= pairs@.len(),
            pairs.deep_view() == split_on(q@, '&'),
            forall|j: int|
                0 <= j < i ==> !pair_grants(#[trigger] split_on(q@, '&')[j], tok@),
        decreases pairs@.len() - i,
    {
        proof {
            assert(pairs.deep_view()[i as int] == pairs@[i as int].deep_view());
            assert(pairs@[i as int].deep_view() =~= pairs@[i as int]@);
        }
        if pair_grants_exec(&pairs[i], tok) {
            return true;
        }
        i = i + 1;
    }
    proof {
        assert(pairs.deep_view().len() == pairs@.len());
    }
    false
}

/// Decides one request. The caller hands the request path, the
/// Authorization header if any, the raw query string if any, the configured
/// token if any, and whether query-string tokens are accepted.
pub fn authorize(
    path: &str,
    authorization: &Option<String>,
    query: &Option<String>,
    token: &Option<String>,
    allow_query: bool,
) -> (r: bool)
    ensures
        r == auth_allows(
            path@,
            authorization.deep_view(),
            query.deep_view(),
            token.deep_view(),
            allow_query,
        ),
{
    if starts_with_exec(path, "/healthz") {
        return true;
    }
    match token {
        None => true,
        Some(t) => {
            let header_ok = match authorization {
                Some(h) => {
                    let expected = concat2("Bearer ", t.as_str());
                    str_eq(h.as_str(), expected.as_str())
                },
                None => false,
            };
            if header_ok {
                return true;
            }
            if allow_query {
                match query {
                    Some(q) => query_grants_exec(q.as_str(), t.as_str()),
                    None => false,
                }
            } else {
                false
            }
        },
    }
}

} // verus!
