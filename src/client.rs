use vstd::prelude::*;
use vstd::string::*;
use crate::headers::{Headers, header_value_ok, check_header_value};
use crate::query::QueryBuilder;

verus! {

/// What `url::Url::parse` makes of a string: the URL in serialised form, or `None` where
/// the string is no absolute URL.
pub uninterp spec fn url_serialization(s: Seq<char>) -> Option<Seq<char>>;

/// Relies on `url::Url::parse`, and on `Url::as_str` for the serialised form.
#[verifier::external_body]
fn parse_url(s: &str) -> (r: Result<String, url::ParseError>)
    ensures
        r is Ok <==> url_serialization(s@) is Some,
        r is Ok ==> url_serialization(s@) == Some(r->Ok_0@),
{
    match url::Url::parse(s) {
        Ok(u) => Ok(u.as_str().to_string()),
        Err(e) => Err(e),
    }
}

/// Where queries go, in which schema, and the headers that each request carries.
pub struct PostgrestClient {
    pub schema: String,
    pub base_url: String,
    pub default_headers: Headers,
}

impl PostgrestClient {
    pub fn new(base_url: &str) -> (r: Result<PostgrestClient, url::ParseError>)
        ensures
            r is Ok <==> url_serialization(base_url@) is Some,
            r is Ok ==> ({
                let c = r->Ok_0;
                &&& Some(c.base_url@) == url_serialization(base_url@)
                &&& c.schema@ == "public"@
                &&& c.default_headers.map() == Map::<Seq<char>, Seq<char>>::empty()
            }),
    {
        match parse_url(base_url) {
            Ok(u) => Ok(
                PostgrestClient {
                    schema: String::from_str("public"),
                    base_url: u,
                    default_headers: Headers::new(),
                },
            ),
            Err(e) => Err(e),
        }
    }

    /// Adds `headers` to the defaults; where both name a header, `headers` wins.
    pub fn default_headers(self, headers: Headers) -> (r: PostgrestClient)
        requires
            headers.wf(),
        ensures
            r.default_headers.map() == self.default_headers.map().union_prefer_right(
                headers.map(),
            ),
            r.schema == self.schema,
            r.base_url == self.base_url,
    {
        let mut s = self;
        s.default_headers.extend(&headers);
        s
    }

    /// Sends `api_key` as `apikey` and as a bearer `authorization` with every request.
    pub fn with_supabase_key(self, api_key: &str) -> (r: Result<
        PostgrestClient,
        reqwest::header::InvalidHeaderValue,
    >)
        ensures
            r is Ok <==> header_value_ok(api_key@),
            r is Ok ==> ({
                let c = r->Ok_0;
                &&& c.default_headers.map() == self.default_headers.map().insert(
                    "apikey"@,
                    api_key@,
                ).insert("authorization"@, "Bearer "@ + api_key@)
                &&& c.schema == self.schema
                &&& c.base_url == self.base_url
            }),
    {
        match check_header_value(api_key) {
            Ok(()) => {},
            Err(e) => {
                return Err(e);
            },
        }
        let mut headers = Headers::new();
        let apikey = String::from_str("apikey");
        let authorization = String::from_str("authorization");
        proof {
            reveal_strlit("apikey");
            reveal_strlit("authorization");
        }
        headers.insert(apikey, String::from_str(api_key));
        headers.insert(authorization, String::from_str("Bearer ").concat(api_key));
        let r = self.default_headers(headers);
        proof {
            let m = self.default_headers.map();
            let h = Map::<Seq<char>, Seq<char>>::empty().insert("apikey"@, api_key@).insert(
                "authorization"@,
                "Bearer "@ + api_key@,
            );
            assert(m.union_prefer_right(h) =~= m.insert("apikey"@, api_key@).insert(
                "authorization"@,
                "Bearer "@ + api_key@,
            ));
        }
        Ok(r)
    }

    /// Starts a query on the table or view `relation`.
    pub fn from(&self, relation: &str) -> (r: QueryBuilder)
        ensures
            r.url@ == self.base_url@ + "/"@ + relation@,
            r.schema@ == self.schema@,
            r.query@.len() == 0,
            r.headers.map() == Map::<Seq<char>, Seq<char>>::empty(),
            r.defaults.map() == self.default_headers.map(),
    {
        let url = self.base_url.clone().concat("/").concat(relation);
        QueryBuilder::new(self, url, self.schema.clone())
    }
}

} // verus!
