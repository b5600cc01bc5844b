use vstd::prelude::*;
use vstd::string::*;
use crate::Count;
use crate::error::QueryError;
use crate::headers::{Headers, header_name_of, header_value_ok, check_header_value};
use crate::query::QueryBuilder;
use crate::text::{decimal, render_usize};

verus! {

/// The HTTP methods that queries use.
#[derive(PartialEq, Eq, Structural, Clone, Copy, Debug)]
pub enum Method {
    Get,
    Head,
    Post,
    Patch,
}

impl Method {
    /// A read (`GET`, or `HEAD` for the counts alone) as opposed to a write.
    pub open spec fn read_style(self) -> bool {
        self == Method::Get || self == Method::Head
    }

    pub fn is_read_style(self) -> (r: bool)
        ensures
            r == self.read_style(),
    {
        self == Method::Get || self == Method::Head
    }

    /// The header that names the schema: `accept-profile` for reads, else `content-profile`.
    pub open spec fn profile_header(self) -> Seq<char> {
        if self.read_style() {
            "accept-profile"@
        } else {
            "content-profile"@
        }
    }

    /// Whether the response body is read: only for `GET`.
    pub open spec fn reads_body(self) -> bool {
        self == Method::Get
    }

    pub fn body_is_read(self) -> (r: bool)
        ensures
            r == self.reads_body(),
    {
        self == Method::Get
    }
}

/// What a successful response is decoded into.
#[derive(PartialEq, Eq, Structural, Clone, Copy, Debug)]
pub enum Shape {
    /// A sequence of rows.
    Rows,
    /// Exactly one row, sent as a single object.
    Single,
    /// Zero or one row, read from an array.
    MaybeSingle,
    /// Nothing: writes and `HEAD` requests.
    Nothing,
}

pub open spec fn pairs_view(s: Seq<(String, String)>) -> Seq<(Seq<char>, Seq<char>)> {
    s.map_values(|p: (String, String)| (p.0@, p.1@))
}

pub open spec fn option_view(o: Option<String>) -> Option<Seq<char>> {
    match o {
        Some(s) => Some(s@),
        None => None,
    }
}

pub open spec fn object_accept() -> Seq<char> {
    "application/vnd.pgrst.object+json"@
}

/// One request, ready to be sent.
pub struct Request {
    pub method: Method,
    pub url: String,
    pub query: Vec<(String, String)>,
    pub headers: Headers,
    /// The body as JSON text.
    pub body: Option<String>,
}

/// A query being configured: filters, options and headers accumulate here, and nothing
/// is sent until it is resolved.
pub struct FilterBuilder {
    pub url: String,
    pub query: Vec<(String, String)>,
    pub headers: Headers,
    pub defaults: Headers,
    pub schema: String,
    pub method: Method,
    /// The body as JSON text.
    pub body: Option<String>,
    pub count: Option<Count>,
    pub shape: Shape,
}

fn copy_pairs(v: &Vec<(String, String)>) -> (r: Vec<(String, String)>)
    ensures
        pairs_view(r@) == pairs_view(v@),
{
    let mut r: Vec<(String, String)> = Vec::new();
    let mut i: usize = 0;
    while i < v.len()
        invariant
            i <= v@.len(),
            pairs_view(r@) == pairs_view(v@.take(i as int)),
        decreases v@.len() - i,
    {
        let ghost before = r@;
        r.push((v[i].0.clone(), v[i].1.clone()));
        assert(pairs_view(r@) =~= pairs_view(before).push((v@[i as int].0@, v@[i as int].1@)));
        assert(pairs_view(v@.take(i + 1)) =~= pairs_view(v@.take(i as int)).push(
            (v@[i as int].0@, v@[i as int].1@),
        ));
        i += 1;
    }
    assert(v@.take(i as int) =~= v@);
    r
}

impl FilterBuilder {
    /// Everything but the query pairs is as in `other`.
    pub open spec fn same_but_query(&self, other: &FilterBuilder) -> bool {
        &&& self.url == other.url
        &&& self.headers == other.headers
        &&& self.defaults == other.defaults
        &&& self.schema == other.schema
        &&& self.method == other.method
        &&& self.body == other.body
        &&& self.count == other.count
        &&& self.shape == other.shape
    }

    /// Everything but the headers is as in `other`.
    pub open spec fn same_but_headers(&self, other: &FilterBuilder) -> bool {
        &&& self.url == other.url
        &&& self.query == other.query
        &&& self.defaults == other.defaults
        &&& self.schema == other.schema
        &&& self.method == other.method
        &&& self.body == other.body
        &&& self.count == other.count
    }

    pub fn new(query: QueryBuilder, method: Method, body: Option<String>, shape: Shape) -> (r:
        FilterBuilder)
        ensures
            r.url == query.url,
            r.query == query.query,
            r.headers == query.headers,
            r.defaults == query.defaults,
            r.schema == query.schema,
            r.method == method,
            r.body == body,
            r.count is None,
            r.shape == shape,
    {
        FilterBuilder {
            url: query.url,
            query: query.query,
            headers: query.headers,
            defaults: query.defaults,
            schema: query.schema,
            method,
            body,
            count: None,
            shape,
        }
    }

    /// Match only rows where `column` equals `value`.
    pub fn eq(self, column: &str, value: &str) -> (r: FilterBuilder)
        ensures
            pairs_view(r.query@) == pairs_view(self.query@).push((column@, "eq."@ + value@)),
            r.same_but_query(&self),
    {
        let mut s = self;
        let ghost before = s.query@;
        s.query.push((String::from_str(column), String::from_str("eq.").concat(value)));
        assert(pairs_view(s.query@) =~= pairs_view(before).push((column@, "eq."@ + value@)));
        s
    }

    /// Limit the result to `count` rows.
    pub fn limit(self, count: usize) -> (r: FilterBuilder)
        ensures
            pairs_view(r.query@) == pairs_view(self.query@).push(
                ("limit"@, decimal(count as nat)),
            ),
            r.same_but_query(&self),
    {
        let mut s = self;
        let ghost before = s.query@;
        s.query.push((String::from_str("limit"), render_usize(count)));
        assert(pairs_view(s.query@) =~= pairs_view(before).push(
            ("limit"@, decimal(count as nat)),
        ));
        s
    }

    /// Ask for the counts alone: `HEAD`, nothing decoded.
    pub fn head(self) -> (r: FilterBuilder)
        ensures
            r.method == Method::Head,
            r.shape == Shape::Nothing,
            r.url == self.url,
            r.query == self.query,
            r.headers == self.headers,
            r.defaults == self.defaults,
            r.schema == self.schema,
            r.body == self.body,
            r.count == self.count,
    {
        FilterBuilder { method: Method::Head, shape: Shape::Nothing, ..self }
    }

    /// Ask for the table-wide count in the given mode, through `prefer: count=<mode>`; a
    /// mode that a header value cannot carry fails here.
    pub fn count(self, count: Count) -> (r: Result<FilterBuilder, QueryError>)
        ensures
            r is Ok <==> header_value_ok("count="@ + count.wire()),
            r is Err ==> r matches Err(QueryError::InvalidHeaderValueError(_)),
            r matches Ok(b) ==> {
                &&& b.headers.map() == self.headers.map().insert("prefer"@, "count="@ + count.wire())
                &&& b.count == Some(count)
                &&& b.url == self.url
                &&& b.query == self.query
                &&& b.defaults == self.defaults
                &&& b.schema == self.schema
                &&& b.method == self.method
                &&& b.body == self.body
                &&& b.shape == self.shape
            },
    {
        let mut s = self;
        let value = String::from_str("count=").concat(count.to_string().as_str());
        match check_header_value(value.as_str()) {
            Ok(()) => {},
            Err(e) => {
                return Err(QueryError::InvalidHeaderValueError(e));
            },
        }
        let name = String::from_str("prefer");
        proof {
            reveal_strlit("prefer");
        }
        s.headers.insert(name, value);
        s.count = Some(count);
        Ok(s)
    }

    /// Set a request header; a name that is no valid token, or a value that a header cannot
    /// carry, fails here.
    pub fn header(self, key: &str, value: &str) -> (r: Result<FilterBuilder, QueryError>)
        ensures
            r is Ok <==> header_name_of(key@) is Some && header_value_ok(value@),
            header_name_of(key@) is None ==> r matches Err(QueryError::InvalidHeaderNameError(_)),
            header_name_of(key@) is Some && !header_value_ok(value@) ==> r matches Err(
                QueryError::InvalidHeaderValueError(_),
            ),
            r matches Ok(b) ==> b.headers.map() == self.headers.map().insert(
                header_name_of(key@)->0,
                value@,
            ) && b.same_but_headers(&self) && b.shape == self.shape,
    {
        let mut s = self;
        match s.headers.set(key, value) {
            Ok(()) => Ok(s),
            Err(e) => Err(e),
        }
    }

    /// Ask for a single object instead of an array.
    pub fn single(self) -> (r: FilterBuilder)
        ensures
            r.headers.map() == self.headers.map().insert("accept"@, object_accept()),
            r.shape == Shape::Single,
            r.same_but_headers(&self),
    {
        let mut s = self;
        let name = String::from_str("accept");
        proof {
            reveal_strlit("accept");
        }
        s.headers.insert(name, String::from_str("application/vnd.pgrst.object+json"));
        FilterBuilder { shape: Shape::Single, ..s }
    }

    /// Ask for zero or one row. A read keeps the array form, so that no row and one row
    /// stay apart; other methods ask for a single object. The result must hold at most one
    /// row (constrain the query, e.g. with `limit(1)`): of more, the first is taken.
    pub fn maybe_single(self) -> (r: FilterBuilder)
        ensures
            r.headers.map() == self.headers.map().insert(
                "accept"@,
                if self.method == Method::Get {
                    "application/json"@
                } else {
                    object_accept()
                },
            ),
            r.shape == Shape::MaybeSingle,
            r.same_but_headers(&self),
    {
        let mut s = self;
        let accept = if s.method == Method::Get {
            String::from_str("application/json")
        } else {
            String::from_str("application/vnd.pgrst.object+json")
        };
        let name = String::from_str("accept");
        proof {
            reveal_strlit("accept");
        }
        s.headers.insert(name, accept);
        FilterBuilder { shape: Shape::MaybeSingle, ..s }
    }

    /// The headers that the request carries: the defaults, then the builder's own, then
    /// the schema's profile header, then the content type where a body goes along.
    pub open spec fn request_headers(&self) -> Map<Seq<char>, Seq<char>> {
        let m = self.defaults.map().union_prefer_right(self.headers.map()).insert(
            self.method.profile_header(),
            self.schema@,
        );
        if self.body is Some {
            m.insert("content-type"@, "application/json"@)
        } else {
            m
        }
    }

    /// The one request that resolving this builder sends.
    pub fn request(&self) -> (r: Request)
        ensures
            r.method == self.method,
            r.url@ == self.url@,
            pairs_view(r.query@) == pairs_view(self.query@),
            r.headers.map() == self.request_headers(),
            option_view(r.body) == option_view(self.body),
    {
        let mut headers = self.defaults.copy();
        headers.extend(&self.headers);
        let profile = if self.method.is_read_style() {
            String::from_str("accept-profile")
        } else {
            String::from_str("content-profile")
        };
        proof {
            reveal_strlit("accept-profile");
            reveal_strlit("content-profile");
        }
        headers.insert(profile, self.schema.clone());
        let body = match &self.body {
            Some(b) => {
                let name = String::from_str("content-type");
                proof {
                    reveal_strlit("content-type");
                }
                headers.insert(name, String::from_str("application/json"));
                Some(b.clone())
            },
            None => None,
        };
        Request {
            method: self.method,
            url: self.url.clone(),
            query: copy_pairs(&self.query),
            headers,
            body,
        }
    }
}

} // verus!
