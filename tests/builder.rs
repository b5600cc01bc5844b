use postgrest::client::PostgrestClient;
use postgrest::columns::columns_param;
use postgrest::filter::{Method, Shape};
use postgrest::headers::Headers;
use postgrest::text::{render_usize, sanitize_columns};
use postgrest::{Count, QueryError};

fn client() -> PostgrestClient {
    PostgrestClient::new("https://example.supabase.co/rest/v1").unwrap()
}

fn pairs(v: &[(String, String)]) -> Vec<(&str, &str)> {
    v.iter().map(|(k, x)| (k.as_str(), x.as_str())).collect()
}

fn lookup<'a>(h: &'a Headers, key: &str) -> Option<&'a str> {
    h.entries.iter().rev().find(|(k, _)| k == key).map(|(_, v)| v.as_str())
}

#[test]
fn sanitize_keeps_quoted_whitespace() {
    assert_eq!(sanitize_columns("\"a b\", c d"), "\"a b\",cd");
}

#[test]
fn sanitize_removes_all_whitespace_outside_quotes() {
    assert_eq!(sanitize_columns(" id ,\tusername\n"), "id,username");
    assert_eq!(sanitize_columns(""), "");
    assert_eq!(sanitize_columns("data->\"a b\" , x\u{3000}y"), "data->\"a b\",xy");
}

#[test]
fn count_words() {
    assert_eq!(Count::Exact.to_string(), "exact");
    assert_eq!(Count::Planned.to_string(), "planned");
    assert_eq!(Count::Estimated.to_string(), "estimated");
    assert_eq!(Count::Custom("mine".to_string()).to_string(), "mine");
}

#[test]
fn render_numbers() {
    assert_eq!(render_usize(0), "0");
    assert_eq!(render_usize(10), "10");
    assert_eq!(render_usize(usize::MAX), usize::MAX.to_string());
}

#[test]
fn client_parses_base_url() {
    let c = client();
    assert_eq!(c.base_url, "https://example.supabase.co/rest/v1");
    assert_eq!(c.schema, "public");
    assert!(PostgrestClient::new("not a url").is_err());
    let c = PostgrestClient::new("HTTPS://Example.COM").unwrap();
    assert_eq!(c.base_url, "https://example.com/");
}

#[test]
fn supabase_key_sets_default_headers() {
    let c = client().with_supabase_key("k3y").unwrap();
    assert_eq!(lookup(&c.default_headers, "apikey"), Some("k3y"));
    assert_eq!(lookup(&c.default_headers, "authorization"), Some("Bearer k3y"));
    assert!(client().with_supabase_key("bad\nkey").is_err());
}

#[test]
fn select_chain_builds_query() {
    let c = client();
    let b = c
        .from("users")
        .select("id, username")
        .eq("username", "katsumi")
        .limit(10);
    assert_eq!(b.url, "https://example.supabase.co/rest/v1/users");
    assert_eq!(b.method, Method::Get);
    assert_eq!(b.shape, Shape::Rows);
    assert_eq!(
        pairs(&b.query),
        vec![("select", "id,username"), ("username", "eq.katsumi"), ("limit", "10")]
    );
}

#[test]
fn count_sets_prefer_header() {
    let b = client().from("users").select("*").count(Count::Estimated).unwrap();
    assert_eq!(lookup(&b.headers, "prefer"), Some("count=estimated"));
    assert!(matches!(b.count, Some(Count::Estimated)));
    let b = client().from("users").select("*").count(Count::Custom("mine".to_string())).unwrap();
    assert_eq!(lookup(&b.headers, "prefer"), Some("count=mine"));
    let e = client().from("users").select("*").count(Count::Custom("a\nb".to_string()));
    assert!(matches!(e, Err(QueryError::InvalidHeaderValueError(_))));
}

#[test]
fn header_normalises_and_rejects() {
    let b = client().from("users").select("*").header("X-Trace", "abc").unwrap();
    assert_eq!(lookup(&b.headers, "x-trace"), Some("abc"));
    let e = client().from("users").select("*").header("bad name", "abc");
    assert!(matches!(e, Err(QueryError::InvalidHeaderNameError(_))));
    let e = client().from("users").select("*").header("", "abc");
    assert!(matches!(e, Err(QueryError::InvalidHeaderNameError(_))));
    let e = client().from("users").select("*").header("caf\u{e9}", "abc");
    assert!(matches!(e, Err(QueryError::InvalidHeaderNameError(_))));
    let e = client().from("users").select("*").header("x-ok", "a\nb");
    assert!(matches!(e, Err(QueryError::InvalidHeaderValueError(_))));
}

#[test]
fn single_and_maybe_single_accept() {
    let b = client().from("users").select("*").single();
    assert_eq!(b.shape, Shape::Single);
    assert_eq!(lookup(&b.headers, "accept"), Some("application/vnd.pgrst.object+json"));
    let b = client().from("users").select("*").maybe_single();
    assert_eq!(b.shape, Shape::MaybeSingle);
    assert_eq!(lookup(&b.headers, "accept"), Some("application/json"));
    let b = client().from("users").insert("{}".to_string(), None).maybe_single();
    assert_eq!(lookup(&b.headers, "accept"), Some("application/vnd.pgrst.object+json"));
}

#[test]
fn head_switches_method() {
    let b = client().from("users").select("*").head();
    assert_eq!(b.method, Method::Head);
    assert_eq!(b.shape, Shape::Nothing);
}

#[test]
fn request_merges_headers() {
    let c = client().with_supabase_key("k").unwrap();
    let b = c.from("users").select("*").header("apikey", "override").unwrap();
    let r = b.request();
    assert_eq!(lookup(&r.headers, "apikey"), Some("override"));
    assert_eq!(lookup(&r.headers, "authorization"), Some("Bearer k"));
    assert_eq!(lookup(&r.headers, "accept-profile"), Some("public"));
    assert_eq!(lookup(&r.headers, "content-type"), None);
    assert!(r.body.is_none());

    let w = c.from("users").update("{\"a\":1}".to_string(), None).request();
    assert_eq!(w.method, Method::Patch);
    assert_eq!(lookup(&w.headers, "content-profile"), Some("public"));
    assert_eq!(lookup(&w.headers, "content-type"), Some("application/json"));
    assert_eq!(w.body.as_deref(), Some("{\"a\":1}"));
}

fn keys(rows: &[&[&str]]) -> Vec<Vec<String>> {
    rows.iter().map(|r| r.iter().map(|k| k.to_string()).collect()).collect()
}

#[test]
fn columns_union_sorted_dedup_quoted() {
    let rows = keys(&[&["name", "id"], &["id", "age"], &[]]);
    assert_eq!(columns_param(&rows).as_deref(), Some("\"age\",\"id\",\"name\""));
    assert_eq!(columns_param(&keys(&[&[], &[]])), None);
    assert_eq!(columns_param(&keys(&[])), None);
}

#[test]
fn insert_emits_columns() {
    let rows = keys(&[&["b", "a"], &["c"]]);
    let b = client().from("t").insert("[]".to_string(), Some(rows));
    assert_eq!(b.method, Method::Post);
    assert_eq!(pairs(&b.query), vec![("columns", "\"a\",\"b\",\"c\"")]);
    let b = client().from("t").insert("[{}]".to_string(), Some(keys(&[&[]])));
    assert!(b.query.is_empty());
    let b = client().from("t").update("{\"x\":1}".to_string(), None);
    assert!(b.query.is_empty());
}
