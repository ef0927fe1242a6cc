use vstd::prelude::*;
use vstd::string::StrSliceExecFns;
use crate::error::Error;
use crate::options::ClientOptions;

verus! {

/// The plain scheme of a connection string.
pub open spec fn plain_scheme() -> Seq<char> {
    seq!['m', 'o', 'n', 'g', 'o', 'd', 'b', ':', '/', '/']
}

/// The scheme of a connection string whose hosts are looked up by service record.
pub open spec fn srv_scheme() -> Seq<char> {
    seq!['m', 'o', 'n', 'g', 'o', 'd', 'b', '+', 's', 'r', 'v', ':', '/', '/']
}

/// Whether `s` begins with `p`.
pub open spec fn starts_with(s: Seq<char>, p: Seq<char>) -> bool {
    p.len() <= s.len() && s.subrange(0, p.len() as int) == p
}

/// The length of the scheme that `s` begins with, or 0 when it begins with neither.
pub open spec fn scheme_len(s: Seq<char>) -> int {
    if starts_with(s, plain_scheme()) {
        plain_scheme().len() as int
    } else if starts_with(s, srv_scheme()) {
        srv_scheme().len() as int
    } else {
        0
    }
}

/// Whether `c` ends the host list.
pub open spec fn ends_hosts(c: char) -> bool {
    c == '/' || c == '?'
}

/// The first position at or after `i` that holds a character ending the host
/// list (`slash_or_query`) or a `?` (otherwise), or the length of `s`.
pub open spec fn first_stop(s: Seq<char>, i: int, slash_or_query: bool) -> int
    decreases s.len() - i,
{
    if i < 0 || i >= s.len() {
        s.len() as int
    } else if (if slash_or_query { ends_hosts(s[i]) } else { s[i] == '?' }) {
        i
    } else {
        first_stop(s, i + 1, slash_or_query)
    }
}

/// Where the host list of `s` ends.
pub open spec fn hosts_end(s: Seq<char>) -> int {
    first_stop(s, scheme_len(s), true)
}

/// Whether `s` is an accepted connection string: a known scheme and a
/// non-empty host list.
pub open spec fn valid_uri(s: Seq<char>) -> bool {
    scheme_len(s) > 0 && hosts_end(s) > scheme_len(s)
}

/// The host list of `s`.
pub open spec fn hosts_of(s: Seq<char>) -> Seq<char> {
    s.subrange(scheme_len(s), hosts_end(s))
}

/// The default database of `s`: what stands between the `/` that ends the
/// host list and the `?` of the options, when that is not empty.
pub open spec fn default_database_of(s: Seq<char>) -> Option<Seq<char>> {
    let h = hosts_end(s);
    if h < s.len() && s[h] == '/' {
        let q = first_stop(s, h + 1, false);
        if q > h + 1 {
            Some(s.subrange(h + 1, q))
        } else {
            None
        }
    } else {
        None
    }
}

proof fn lemma_first_stop_bounds(s: Seq<char>, i: int, f: bool)
    requires
        0 <= i <= s.len(),
    ensures
        i <= first_stop(s, i, f) <= s.len(),
    decreases s.len() - i,
{
    if i < s.len() {
        lemma_first_stop_bounds(s, i + 1, f);
    }
}

/// An accepted connection string names at least one host.
pub proof fn lemma_hosts_nonempty(s: Seq<char>)
    requires
        valid_uri(s),
    ensures
        hosts_of(s).len() > 0,
{
    lemma_first_stop_bounds(s, scheme_len(s), true);
}

/// Whether `s`, of `n` characters, begins with `p`.
fn has_prefix(s: &str, n: usize, p: &str) -> (r: bool)
    requires
        n == s@.len(),
    ensures
        r == starts_with(s@, p@),
{
    let m = p.unicode_len();
    if m > n {
        return false;
    }
    let mut i: usize = 0;
    while i < m
        invariant
            m == p@.len(),
            m <= n,
            n == s@.len(),
            i <= m,
            forall|j: int| 0 <= j < i ==> s@[j] == p@[j],
        decreases m - i,
    {
        if s.get_char(i) != p.get_char(i) {
            assert(s@.subrange(0, m as int)[i as int] != p@[i as int]);
            return false;
        }
        i = i + 1;
    }
    assert(s@.subrange(0, m as int) =~= p@);
    true
}

/// The first position at or after `i` whose character ends the host list
/// (`slash_or_query`) or is a `?` (otherwise), or `n`.
fn find_stop(s: &str, n: usize, i: usize, slash_or_query: bool) -> (r: usize)
    requires
        n == s@.len(),
        i <= n,
    ensures
        r == first_stop(s@, i as int, slash_or_query),
{
    let mut k: usize = i;
    while k < n
        invariant
            n == s@.len(),
            i <= k <= n,
            first_stop(s@, i as int, slash_or_query) == first_stop(s@, k as int, slash_or_query),
        decreases n - k,
    {
        let c = s.get_char(k);
        let stop = if slash_or_query {
            c == '/' || c == '?'
        } else {
            c == '?'
        };
        if stop {
            return k;
        }
        k = k + 1;
    }
    k
}

impl ClientOptions {
    /// Reads a connection string of the form `mongodb://hosts[/database][?options]`
    /// (or `mongodb+srv://...`). The host list is kept as written; the options
    /// part is not interpreted.
    pub fn parse(uri: &str) -> (r: Result<ClientOptions, Error>)
        ensures
            valid_uri(uri@) <==> r is Ok,
            !valid_uri(uri@) ==> r == Err::<ClientOptions, Error>(Error::InvalidUri),
            r is Ok ==> r->Ok_0.hosts@ == hosts_of(uri@) && (match r->Ok_0.default_database {
                None => default_database_of(uri@) is None,
                Some(d) => default_database_of(uri@) == Some(d@),
            }) && r->Ok_0.selection_criteria is None && r->Ok_0.read_concern is None
                && r->Ok_0.write_concern is None,
    {
        let n = uri.unicode_len();
        proof {
            reveal_strlit("mongodb://");
            reveal_strlit("mongodb+srv://");
            assert("mongodb://"@ =~= plain_scheme());
            assert("mongodb+srv://"@ =~= srv_scheme());
        }
        let start: usize = if has_prefix(uri, n, "mongodb://") {
            10
        } else if has_prefix(uri, n, "mongodb+srv://") {
            14
        } else {
            0
        };
        assert(start as int == scheme_len(uri@));
        if start == 0 {
            return Err(Error::InvalidUri);
        }
        let h = find_stop(uri, n, start, true);
        proof {
            lemma_first_stop_bounds(uri@, start as int, true);
        }
        if h == start {
            return Err(Error::InvalidUri);
        }
        let hosts = uri.substring_char(start, h).to_owned();
        let mut default_database: Option<String> = None;
        if h < n && uri.get_char(h) == '/' {
            let q = find_stop(uri, n, h + 1, false);
            proof {
                lemma_first_stop_bounds(uri@, h + 1, false);
            }
            if q > h + 1 {
                default_database = Some(uri.substring_char(h + 1, q).to_owned());
            }
        }
        Ok(
            ClientOptions {
                hosts,
                default_database,
                selection_criteria: None,
                read_concern: None,
                write_concern: None,
            },
        )
    }
}

} // verus!
