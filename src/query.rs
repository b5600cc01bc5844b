use vstd::prelude::*;
use vstd::string::*;
use crate::client::PostgrestClient;
use crate::filter::{FilterBuilder, Method, Shape, pairs_view};
use crate::headers::Headers;
use crate::text::{sanitize_columns, sanitized};
use crate::columns::{columns_param, has_key, strictly_sorted, quoted_join, lemma_sorted_keys_unique};

verus! {

/// A query on one relation before its method is chosen.
pub struct QueryBuilder {
    pub url: String,
    pub query: Vec<(String, String)>,
    pub schema: String,
    pub headers: Headers,
    /// The client's default headers, which the builder's own override.
    pub defaults: Headers,
}

impl QueryBuilder {
    pub fn new(client: &PostgrestClient, url: String, schema: String) -> (r: QueryBuilder)
        ensures
            r.url == url,
            r.schema == schema,
            r.query@.len() == 0,
            r.headers.map() == Map::<Seq<char>, Seq<char>>::empty(),
            r.defaults.map() == client.default_headers.map(),
    {
        QueryBuilder {
            url,
            query: Vec::new(),
            schema,
            headers: Headers::new(),
            defaults: client.default_headers.copy(),
        }
    }

    /// A read of the columns listed in `columns`, whitespace outside double quotes removed.
    pub fn select(self, columns: &str) -> (r: FilterBuilder)
        ensures
            r.method == Method::Get,
            r.shape == Shape::Rows,
            r.body is None,
            r.count is None,
            pairs_view(r.query@) == pairs_view(self.query@).push(
                ("select"@, sanitized(columns@)),
            ),
            r.url == self.url,
            r.schema == self.schema,
            r.headers == self.headers,
            r.defaults == self.defaults,
    {
        let mut s = self;
        let cleaned = sanitize_columns(columns);
        let ghost before = s.query@;
        s.query.push((String::from_str("select"), cleaned));
        assert(pairs_view(s.query@) =~= pairs_view(before).push(("select"@, sanitized(columns@))));
        FilterBuilder::new(s, Method::Get, None, Shape::Rows)
    }
    /// The query pairs that a write of `rows` adds: a `columns` pair where `rows` (the
    /// keys of each object of an array body) name any key.
    pub open spec fn write_query(&self, rows: Option<Vec<Vec<String>>>, q: Seq<(Seq<char>, Seq<char>)>) -> bool {
        if rows is Some && exists|x: Seq<char>| has_key(rows->0@, x) {
            exists|ks: Seq<Seq<char>>|
                strictly_sorted(ks) && (forall|x: Seq<char>| ks.contains(x) <==> has_key(rows->0@, x))
                    && q == pairs_view(self.query@).push(("columns"@, quoted_join(ks)))
        } else {
            q == pairs_view(self.query@)
        }
    }

    fn write(self, method: Method, body: String, rows: Option<Vec<Vec<String>>>) -> (r: FilterBuilder)
        ensures
            r.method == method,
            r.shape == Shape::Nothing,
            r.body == Some(body),
            r.count is None,
            self.write_query(rows, pairs_view(r.query@)),
            r.url == self.url,
            r.schema == self.schema,
            r.headers == self.headers,
            r.defaults == self.defaults,
    {
        let mut s = self;
        let ghost before = s.query@;
        match &rows {
            Some(rs) => {
                match columns_param(rs) {
                    Some(c) => {
                        s.query.push((String::from_str("columns"), c));
                        assert(pairs_view(s.query@) =~= pairs_view(before).push(("columns"@, c@)));
                    },
                    None => {},
                }
            },
            None => {},
        }
        FilterBuilder::new(s, method, Some(body), Shape::Nothing)
    }

    /// An insert of `body`, the rows as JSON text. Where the body is an array, `rows`
    /// holds the keys of each of its objects, and their union goes along as `columns`.
    pub fn insert(self, body: String, rows: Option<Vec<Vec<String>>>) -> (r: FilterBuilder)
        ensures
            r.method == Method::Post,
            r.shape == Shape::Nothing,
            r.body == Some(body),
            r.count is None,
            self.write_query(rows, pairs_view(r.query@)),
            r.url == self.url,
            r.schema == self.schema,
            r.headers == self.headers,
            r.defaults == self.defaults,
    {
        self.write(Method::Post, body, rows)
    }

    /// An update with `body`, the new values as JSON text; `rows` as for `insert`.
    pub fn update(self, body: String, rows: Option<Vec<Vec<String>>>) -> (r: FilterBuilder)
        ensures
            r.method == Method::Patch,
            r.shape == Shape::Nothing,
            r.body == Some(body),
            r.count is None,
            self.write_query(rows, pairs_view(r.query@)),
            r.url == self.url,
            r.schema == self.schema,
            r.headers == self.headers,
            r.defaults == self.defaults,
    {
        self.write(Method::Patch, body, rows)
    }
}

/// A write of rows whose objects hold any key adds exactly one `columns` pair: the union of
/// their keys, sorted, each once, quoted and comma-joined. Rows without keys add nothing.
pub proof fn lemma_write_columns(
    qb: QueryBuilder,
    rows: Option<Vec<Vec<String>>>,
    q: Seq<(Seq<char>, Seq<char>)>,
    ks: Seq<Seq<char>>,
)
    requires
        qb.write_query(rows, q),
        strictly_sorted(ks),
        rows matches Some(rs) && forall|x: Seq<char>| ks.contains(x) <==> has_key(rs@, x),
    ensures
        ks.len() > 0 ==> q == pairs_view(qb.query@).push(("columns"@, quoted_join(ks))),
        ks.len() == 0 ==> q == pairs_view(qb.query@),
{
    let rs = rows->0;
    if ks.len() > 0 {
        assert(ks.contains(ks[0]));
        assert(has_key(rs@, ks[0]));
        let w = choose|w: Seq<Seq<char>>|
            strictly_sorted(w) && (forall|x: Seq<char>| w.contains(x) <==> has_key(rs@, x))
                && q == pairs_view(qb.query@).push(("columns"@, quoted_join(w)));
        lemma_sorted_keys_unique(w, ks);
    } else {
        assert forall|x: Seq<char>| !has_key(rs@, x) by {
            if has_key(rs@, x) {
                assert(ks.contains(x));
            }
        }
    }
}

} // verus!
