use vstd::prelude::*;
use vstd::string::StringExecFns;
use crate::text::{
    ascii_eq_ic, ascii_eq_ignore_case, has_prefix, starts_with_exec, str_eq, to_chars, trim_exec,
    trimmed, from_chars,
};

verus! {

/// Runtime configuration. The process edge reads the raw environment values
/// and hands them here; every rule about defaults and interpretation is
/// applied in this module.
#[derive(Clone, Debug)]
pub struct Config {
    pub db_url: String,
    pub db_namespace: String,
    pub db_name: String,
    pub db_user: String,
    pub db_pass: String,
    pub http_addr: Option<String>,
    pub bearer_token: Option<String>,
    pub allow_token_in_url: bool,
}

pub open spec fn or_default(v: Option<Seq<char>>, d: Seq<char>) -> Seq<char> {
    match v {
        Some(s) => s,
        None => d,
    }
}

/// What the token-in-url switch means: anything but "0" and an
/// ASCII-case-insensitive "false" leaves it on, as does an unset value.
pub open spec fn allow_flag_spec(raw: Option<Seq<char>>) -> bool {
    match raw {
        None => true,
        Some(v) => v != "0"@ && !ascii_eq_ic(v, "false"@),
    }
}

/// The bearer token: the environment value when set, else the trimmed
/// contents of the token file, else none.
pub open spec fn token_spec(env_token: Option<Seq<char>>, file_contents: Option<Seq<char>>) -> Option<
    Seq<char>,
> {
    match env_token {
        Some(t) => Some(t),
        None => match file_contents {
            Some(f) => Some(trimmed(f)),
            None => None,
        },
    }
}

impl Config {
    /// Resolves the configuration from raw environment values.
    pub fn assemble(
        db_url: Option<String>,
        db_namespace: Option<String>,
        db_name: Option<String>,
        db_user: Option<String>,
        db_pass: Option<String>,
        http_addr: Option<String>,
        env_token: Option<String>,
        token_file: Option<String>,
        allow_raw: Option<String>,
    ) -> (r: Config)
        ensures
            r.db_url@ == or_default(db_url.deep_view(), "ws://127.0.0.1:8000"@),
            r.db_namespace@ == or_default(db_namespace.deep_view(), "photography"@),
            r.db_name@ == or_default(db_name.deep_view(), "ops"@),
            r.db_user@ == or_default(db_user.deep_view(), "root"@),
            r.db_pass@ == or_default(db_pass.deep_view(), "root"@),
            r.http_addr == http_addr,
            r.bearer_token.deep_view() == token_spec(
                env_token.deep_view(),
                token_file.deep_view(),
            ),
            r.allow_token_in_url == allow_flag_spec(allow_raw.deep_view()),
    {
        let bearer_token = match env_token {
            Some(t) => Some(t),
            None => match token_file {
                Some(f) => Some(trim_exec(f.as_str())),
                None => None,
            },
        };
        let allow_token_in_url = match &allow_raw {
            None => true,
            Some(v) => !str_eq(v.as_str(), "0") && !ascii_eq_ignore_case(v.as_str(), "false"),
        };
        Config {
            db_url: match db_url {
                Some(s) => s,
                None => String::from_str("ws://127.0.0.1:8000"),
            },
            db_namespace: match db_namespace {
                Some(s) => s,
                None => String::from_str("photography"),
            },
            db_name: match db_name {
                Some(s) => s,
                None => String::from_str("ops"),
            },
            db_user: match db_user {
                Some(s) => s,
                None => String::from_str("root"),
            },
            db_pass: match db_pass {
                Some(s) => s,
                None => String::from_str("root"),
            },
            http_addr,
            bearer_token,
            allow_token_in_url,
        }
    }
}

/// `s` with every leading occurrence of `p` removed.
pub open spec fn strip_reps(s: Seq<char>, p: Seq<char>) -> Seq<char>
    decreases s.len(),
{
    if p.len() > 0 && has_prefix(s, p) && s.len() >= p.len() {
        strip_reps(s.skip(p.len() as int), p)
    } else {
        s
    }
}

/// The address handed to the socket layer: the configured url with any
/// leading ws:// and then wss:// schemes stripped.
pub open spec fn db_addr_spec(url: Seq<char>) -> Seq<char> {
    strip_reps(strip_reps(url, "ws://"@), "wss://"@)
}

fn strip_reps_exec(v: Vec<char>, p: &Vec<char>) -> (r: Vec<char>)
    requires
        p@.len() > 0,
    ensures
        r@ == strip_reps(v@, p@),
    decreases v@.len(),
{
    let n = v.len();
    let m = p.len();
    if m > n {
        return v;
    }
    let mut j: usize = 0;
    while j < m
        invariant
            j <= m,
            m == p@.len(),
            m <= n,
            n == v@.len(),
            forall|k: int| 0 <= k < j ==> v@[k] == p@[k],
        decreases m - j,
    {
        if v[j] != p[j] {
            proof {
                assert(v@.subrange(0, p@.len() as int)[j as int] == v@[j as int]);
            }
            return v;
        }
        j = j + 1;
    }
    proof {
        assert(v@.subrange(0, p@.len() as int) =~= p@);
    }
    let mut rest: Vec<char> = Vec::new();
    let mut i: usize = m;
    while i < n
        invariant
            m <= i <= n,
            n == v@.len(),
            rest@ == v@.subrange(m as int, i as int),
        decreases n - i,
    {
        rest.push(v[i]);
        proof {
            assert(v@.subrange(m as int, i as int).push(v@[i as int]) =~= v@.subrange(
                m as int,
                i + 1 as int,
            ));
        }
        i = i + 1;
    }
    proof {
        assert(rest@ =~= v@.skip(m as int));
    }
    strip_reps_exec(rest, p)
}

/// The host:port handed to the database driver: the url without its ws://
/// or wss:// scheme prefix.
pub fn db_socket_addr(url: &str) -> (r: String)
    ensures
        r@ == db_addr_spec(url@),
{
    proof {
        reveal_strlit("ws://");
        reveal_strlit("wss://");
    }
    let v = to_chars(url);
    let p1 = to_chars("ws://");
    let p2 = to_chars("wss://");
    let s1 = strip_reps_exec(v, &p1);
    let s2 = strip_reps_exec(s1, &p2);
    from_chars(&s2)
}

} // verus!
