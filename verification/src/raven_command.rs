//! Translation of logical operations into concrete HTTP requests.
//!
//! A command is a pure function from its variant and a base server URL to
//! a method, a path and a query string; it carries no node selection, no
//! retry and no response handling.  The rendering below is exact: each
//! variant's path and query are pinned down character by character.

use vstd::prelude::*;

use crate::urls::StoreUrl;

verus! {

use vstd::string::StringExecFns;
use vstd::string::StrSliceExecFns;

/// A fully formed HTTP request: method, exact path and query, the URL the
/// request goes to, and its headers.
#[derive(Clone, Debug)]
pub struct HttpRequest {
    pub method: String,
    pub url: String,
    pub path: String,
    pub query: Option<String>,
    pub headers: Vec<(String, String)>,
}

/// All operations that can be sent to the server, with the data each one
/// needs.
#[derive(Clone, Debug)]
pub enum RavenCommandVariant {
    GetClusterTopology,
    GetAllDocumentsFromDatabase { database: String, page_size: Option<i64>, start: Option<i64> },
}

/// A logical operation aimed at one base server URL.
#[derive(Clone, Debug)]
pub struct RavenCommand {
    pub base_server_url: StoreUrl,
    pub command: RavenCommandVariant,
}

pub open spec fn dec_digit(d: nat) -> char {
    if d == 0 {
        '0'
    } else if d == 1 {
        '1'
    } else if d == 2 {
        '2'
    } else if d == 3 {
        '3'
    } else if d == 4 {
        '4'
    } else if d == 5 {
        '5'
    } else if d == 6 {
        '6'
    } else if d == 7 {
        '7'
    } else if d == 8 {
        '8'
    } else {
        '9'
    }
}

/// The decimal representation of a natural number, most significant digit
/// first.
pub open spec fn dec_rep(n: nat) -> Seq<char>
    decreases n,
{
    if n < 10 {
        seq![dec_digit(n)]
    } else {
        dec_rep(n / 10).push(dec_digit(n % 10))
    }
}

/// The decimal representation of a signed number.
pub open spec fn dec_rep_int(n: int) -> Seq<char> {
    if n >= 0 {
        dec_rep(n as nat)
    } else {
        seq!['-'] + dec_rep((-n) as nat)
    }
}

/// The exact path of a command, as the wire surface documents it.
pub open spec fn spec_path(v: RavenCommandVariant) -> Seq<char> {
    match v {
        RavenCommandVariant::GetClusterTopology => "/cluster/topology"@,
        RavenCommandVariant::GetAllDocumentsFromDatabase { database, page_size, start } =>
            "/databases/"@ + database@ + "/docs"@,
    }
}

/// The exact query string of the documents listing: the optional
/// `pageSize` and `start` parts joined with `&`.
pub open spec fn spec_docs_query(page_size: Option<i64>, start: Option<i64>) -> Seq<char> {
    match (page_size, start) {
        (Option::None, Option::None) => Seq::<char>::empty(),
        (Option::Some(p), Option::None) => "pageSize="@ + dec_rep_int(p as int),
        (Option::None, Option::Some(s)) => "start="@ + dec_rep_int(s as int),
        (Option::Some(p), Option::Some(s)) => "pageSize="@ + dec_rep_int(p as int) + "&start="@
            + dec_rep_int(s as int),
    }
}

/// The query of a command: the topology endpoint takes none, the
/// documents listing always carries one, possibly empty.
pub open spec fn spec_query(v: RavenCommandVariant) -> Option<Seq<char>> {
    match v {
        RavenCommandVariant::GetClusterTopology => Option::None,
        RavenCommandVariant::GetAllDocumentsFromDatabase { database, page_size, start } =>
            Option::Some(spec_docs_query(page_size, start)),
    }
}

/// A base URL joined with an absolute path: a trailing slash of the base
/// gives way to the path's leading one.
pub open spec fn spec_join(base: Seq<char>, path: Seq<char>) -> Seq<char> {
    if base.len() > 0 && base.last() == '/' {
        base.take(base.len() - 1) + path
    } else {
        base + path
    }
}

/// The full URL of a command: base joined with the path, then `?` and the
/// query when the command has one.
pub open spec fn spec_full_url(base: Seq<char>, v: RavenCommandVariant) -> Seq<char> {
    match spec_query(v) {
        Option::None => spec_join(base, spec_path(v)),
        Option::Some(q) => spec_join(base, spec_path(v)) + "?"@ + q,
    }
}

/// The rendered request matches the command exactly.
pub open spec fn renders(base: Seq<char>, v: RavenCommandVariant, r: HttpRequest) -> bool {
    &&& r.method@ == "GET"@
    &&& r.path@ == spec_path(v)
    &&& match (r.query, spec_query(v)) {
        (Option::None, Option::None) => true,
        (Option::Some(q), Option::Some(sq)) => q@ == sq,
        _ => false,
    }
    &&& r.url@ == spec_full_url(base, v)
    &&& r.headers@.len() == 0
}

fn digit_str(d: u64) -> (s: &'static str)
    requires
        d < 10,
    ensures
        s@ == seq![dec_digit(d as nat)],
{
    proof {
        reveal_strlit("0");
        reveal_strlit("1");
        reveal_strlit("2");
        reveal_strlit("3");
        reveal_strlit("4");
        reveal_strlit("5");
        reveal_strlit("6");
        reveal_strlit("7");
        reveal_strlit("8");
        reveal_strlit("9");
    }
    let s = if d == 0 {
        "0"
    } else if d == 1 {
        "1"
    } else if d == 2 {
        "2"
    } else if d == 3 {
        "3"
    } else if d == 4 {
        "4"
    } else if d == 5 {
        "5"
    } else if d == 6 {
        "6"
    } else if d == 7 {
        "7"
    } else if d == 8 {
        "8"
    } else {
        "9"
    };
    proof {
        assert(s@ =~= seq![dec_digit(d as nat)]);
    }
    s
}

/// A natural number in decimal.
pub fn u64_to_dec_string(n: u64) -> (s: String)
    ensures
        s@ == dec_rep(n as nat),
    decreases n,
{
    let ds = digit_str(n % 10);
    if n < 10 {
        String::from_str(ds)
    } else {
        let mut rest = u64_to_dec_string(n / 10);
        rest.append(ds);
        proof {
            assert(rest@ =~= dec_rep(n as nat));
        }
        rest
    }
}

/// A signed number in decimal.
pub fn i64_to_dec_string(n: i64) -> (s: String)
    ensures
        s@ == dec_rep_int(n as int),
{
    if n >= 0 {
        u64_to_dec_string(n as u64)
    } else {
        let mag: u64 = (-(n as i128)) as u64;
        let mut s = String::from_str("-");
        s.append(u64_to_dec_string(mag).as_str());
        proof {
            reveal_strlit("-");
            assert(s@ =~= dec_rep_int(n as int));
        }
        s
    }
}

impl RavenCommandVariant {
    /// An equal copy; written out so that the equality is a contract.
    pub fn duplicate(&self) -> (r: Self)
        ensures
            r == *self,
    {
        match self {
            RavenCommandVariant::GetClusterTopology => RavenCommandVariant::GetClusterTopology,
            RavenCommandVariant::GetAllDocumentsFromDatabase { database, page_size, start } =>
                RavenCommandVariant::GetAllDocumentsFromDatabase {
                database: database.clone(),
                page_size: *page_size,
                start: *start,
            },
        }
    }
}

impl HttpRequest {
    /// Append one header; everything else stays as it was.
    pub fn push_header(&mut self, name: &str, value: String)
        ensures
            final(self).method == old(self).method,
            final(self).url == old(self).url,
            final(self).path == old(self).path,
            final(self).query == old(self).query,
            final(self).headers@.len() == old(self).headers@.len() + 1,
            forall|i: int|
                0 <= i < old(self).headers@.len() ==> final(self).headers@[i] == old(
                    self,
                ).headers@[i],
            final(self).headers@.last().0@ == name@,
            final(self).headers@.last().1 == value,
    {
        self.headers.push((String::from_str(name), value));
    }
}

impl RavenCommand {
    /// Render the HTTP request for this command against its base server
    /// URL.  Path and query are exactly the documented wire surface.
    pub fn get_http_request(&self) -> (r: HttpRequest)
        ensures
            renders(self.base_server_url.text@, self.command, r),
    {
        match &self.command {
            RavenCommandVariant::GetClusterTopology => create_get_cluster_topology_request(
                &self.base_server_url,
            ),
            RavenCommandVariant::GetAllDocumentsFromDatabase { database, page_size, start } =>
                create_get_all_documents_from_database_request(
                &self.base_server_url,
                database,
                *page_size,
                *start,
            ),
        }
    }
}

/// The cluster-topology query: `GET /cluster/topology`, no query string.
fn create_get_cluster_topology_request(base: &StoreUrl) -> (r: HttpRequest)
    ensures
        renders(base.text@, RavenCommandVariant::GetClusterTopology, r),
{
    let path = String::from_str("/cluster/topology");
    proof {
        reveal_strlit("/cluster/topology");
    }
    let url = join_base_and_path(base, path.as_str());
    HttpRequest {
        method: String::from_str("GET"),
        url,
        path,
        query: Option::None,
        headers: Vec::new(),
    }
}

/// The documents listing: `GET /databases/{database}/docs` with the
/// optional `pageSize` and `start` query parts.
fn create_get_all_documents_from_database_request(
    base: &StoreUrl,
    database: &String,
    page_size: Option<i64>,
    start: Option<i64>,
) -> (r: HttpRequest)
    ensures
        renders(
            base.text@,
            RavenCommandVariant::GetAllDocumentsFromDatabase {
                database: *database,
                page_size,
                start,
            },
            r,
        ),
{
    let mut path = String::from_str("/databases/");
    path.append(database.as_str());
    path.append("/docs");
    proof {
        reveal_strlit("/databases/");
    }

    let mut query = String::new();
    match page_size {
        Option::Some(p) => {
            query.append("pageSize=");
            query.append(i64_to_dec_string(p).as_str());
            match start {
                Option::Some(s) => {
                    query.append("&start=");
                    query.append(i64_to_dec_string(s).as_str());
                },
                Option::None => {},
            }
        },
        Option::None => {
            match start {
                Option::Some(s) => {
                    query.append("start=");
                    query.append(i64_to_dec_string(s).as_str());
                },
                Option::None => {},
            }
        },
    }
    proof {
        assert(query@ =~= spec_docs_query(page_size, start));
    }

    let mut url = join_base_and_path(base, path.as_str());
    url.append("?");
    url.append(query.as_str());

    let ghost v = RavenCommandVariant::GetAllDocumentsFromDatabase {
        database: *database,
        page_size,
        start,
    };
    proof {
        assert(path@ =~= spec_path(v));
        assert(url@ =~= spec_full_url(base.text@, v));
    }
    HttpRequest {
        method: String::from_str("GET"),
        url,
        path,
        query: Option::Some(query),
        headers: Vec::new(),
    }
}

/// Join a base URL with an absolute path, collapsing the doubled slash.
fn join_base_and_path(base: &StoreUrl, path: &str) -> (r: String)
    requires
        path@.len() > 0,
        path@[0] == '/',
    ensures
        r@ == spec_join(base.text@, path@),
{
    let text = base.as_str();
    let n = text.unicode_len();
    let mut r: String;
    if n > 0 && text.get_char(n - 1) == '/' {
        r = String::from_str(text.substring_char(0, n - 1));
    } else {
        r = String::from_str(text);
    }
    r.append(path);
    proof {
        assert(r@ =~= spec_join(base.text@, path@));
    }
    r
}

} // verus!

