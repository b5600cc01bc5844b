use postgrest::client::PostgrestClient;
use postgrest::filter::Method;
use postgrest::range::{parse_content_range, parse_isize, parse_usize};
use postgrest::resolver::{body_to_decode, first_row, Action, Phase, Resolver};
use postgrest::{Count, PostgrestError, PostgrestResult, QueryError};

fn select() -> postgrest::FilterBuilder {
    PostgrestClient::new("https://example.supabase.co/rest/v1")
        .unwrap()
        .from("users")
        .select("id")
}

#[test]
fn range_without_count() {
    let r = parse_content_range(Some("0-9/*".as_bytes()), false).unwrap();
    assert_eq!(r, (10, None));
}

#[test]
fn range_with_count() {
    let r = parse_content_range(Some("0-9/57".as_bytes()), true).unwrap();
    assert_eq!(r, (10, Some(57)));
}

#[test]
fn range_edge_cases() {
    assert_eq!(parse_content_range(None, true).unwrap(), (0, None));
    assert_eq!(parse_content_range(Some("*/0".as_bytes()), true).unwrap(), (0, Some(0)));
    assert_eq!(parse_content_range(Some("5-5/6".as_bytes()), false).unwrap(), (1, None));
    assert_eq!(parse_content_range(Some("9-0/*".as_bytes()), false).unwrap(), (0, None));
    assert!(matches!(
        parse_content_range(Some("0-9/*".as_bytes()), true),
        Err(QueryError::InvalidContentRange)
    ));
    assert!(matches!(
        parse_content_range(Some("0-9".as_bytes()), true),
        Err(QueryError::InvalidContentRange)
    ));
}

#[test]
fn range_total_is_all_after_the_slash() {
    assert!(matches!(
        parse_content_range(Some("0-9/5/7".as_bytes()), true),
        Err(QueryError::InvalidContentRange)
    ));
    assert_eq!(parse_content_range(Some("0-9/5/7".as_bytes()), false).unwrap(), (10, None));
}

#[test]
fn range_to_is_all_before_the_slash() {
    assert_eq!(parse_content_range(Some("1-2-3/*".as_bytes()), false).unwrap(), (0, None));
    assert_eq!(parse_content_range(Some("3--2/*".as_bytes()), false).unwrap(), (0, None));
    assert_eq!(parse_content_range(Some("0-+4/9".as_bytes()), true).unwrap(), (5, Some(9)));
}

#[test]
fn integer_parsing() {
    let s = "+12-34".as_bytes();
    assert_eq!(parse_isize(s, 0, 3), Some(12));
    assert_eq!(parse_isize(s, 3, 6), Some(-34));
    assert_eq!(parse_isize(s, 0, 0), None);
    assert_eq!(parse_isize(s, 0, 1), None);
    assert_eq!(parse_usize(s, 3, 6), None);
    assert_eq!(parse_usize(s, 0, 3), Some(12));
    let big = "99999999999999999999".as_bytes();
    assert_eq!(parse_usize(big, 0, big.len()), None);
    let max = "9223372036854775807".as_bytes();
    assert_eq!(parse_isize(max, 0, max.len()), Some(isize::MAX));
    let min = "-9223372036854775808".as_bytes();
    assert_eq!(parse_isize(min, 0, min.len()), Some(isize::MIN));
}

#[test]
fn empty_body_decodes_as_empty_array() {
    assert_eq!(body_to_decode(Method::Get, vec![]), b"[]".to_vec());
    assert_eq!(body_to_decode(Method::Get, b"[1]".to_vec()), b"[1]".to_vec());
    assert_eq!(body_to_decode(Method::Head, vec![]), b"null".to_vec());
    assert_eq!(body_to_decode(Method::Post, b"[1]".to_vec()), b"null".to_vec());
}

#[test]
fn first_of_rows() {
    assert_eq!(first_row(vec![3, 4]), Some(3));
    assert_eq!(first_row::<u8>(vec![]), None);
}

#[test]
fn result_helpers() {
    let r = PostgrestResult { value: (), item_count: 0, total_item_count: None };
    assert!(r.is_empty());
    assert!(r.is_table_empty());
    let r = PostgrestResult { value: (), item_count: 2, total_item_count: Some(3) };
    assert!(!r.is_empty());
    assert!(!r.is_table_empty());
    assert_eq!(*r.value(), ());
}

#[test]
fn resolver_sends_one_request() {
    let mut r: Resolver<Vec<u32>> = Resolver::new(select().limit(10));
    let req = match r.drive() {
        Action::Send(req) => req,
        _ => panic!("first drive must send"),
    };
    assert_eq!(req.method, Method::Get);
    assert!(matches!(r.drive(), Action::Wait));
    let d = r.receive(true, Some("0-1/*".as_bytes()), b"[1,2]".to_vec()).unwrap();
    assert!(d.success);
    assert!(!d.first_only);
    assert_eq!(d.bytes, b"[1,2]".to_vec());
    assert!(matches!(r.drive(), Action::Wait));
    r.settle(Ok(vec![1, 2]));
    for _ in 0..3 {
        assert!(matches!(r.drive(), Action::Ready));
        let o = r.outcome().unwrap().as_ref().unwrap();
        assert_eq!(o.value, vec![1, 2]);
        assert_eq!(o.item_count, 2);
        assert_eq!(o.total_item_count, None);
    }
}

#[test]
fn resolver_maybe_single_none_and_some() {
    let mut r: Resolver<Option<u32>> = Resolver::new(select().limit(1).maybe_single());
    r.drive();
    r.receive(true, Some("*/0".as_bytes()), vec![]).unwrap();
    r.settle_first(Ok(None), false);
    let o = r.outcome().unwrap().as_ref().unwrap();
    assert_eq!(o.value, None);
    assert_eq!(o.item_count, 0);

    let mut r: Resolver<Option<u32>> = Resolver::new(select().limit(1).maybe_single());
    r.drive();
    let d = r.receive(true, None, b"[7]".to_vec()).unwrap();
    assert!(d.first_only);
    r.settle_first(Ok(Some(7)), true);
    let o = r.outcome().unwrap().as_ref().unwrap();
    assert_eq!(o.value, Some(7));
    assert_eq!(o.item_count, 1);
}

#[test]
fn resolver_api_error() {
    let mut r: Resolver<Vec<u32>> = Resolver::new(select().count(Count::Exact).unwrap());
    r.drive();
    let d = r.receive(false, Some("*/0".as_bytes()), b"{}".to_vec()).unwrap();
    assert!(!d.success);
    r.fail(Ok(PostgrestError {
        code: "42P01".to_string(),
        details: "d".to_string(),
        message: "m".to_string(),
    }));
    match r.outcome().unwrap() {
        Err(QueryError::PostgrestError(e)) => {
            assert_eq!(e.code, "42P01");
            assert_eq!(e.details, "d");
            assert_eq!(e.message, "m");
        }
        _ => panic!("expected the API error"),
    }
}

#[test]
fn resolver_bad_total_is_decode_error() {
    let mut r: Resolver<Vec<u32>> = Resolver::new(select().count(Count::Exact).unwrap());
    r.drive();
    assert!(r.receive(true, Some("0-9/x".as_bytes()), vec![]).is_none());
    assert!(matches!(r.phase, Phase::Done(Err(QueryError::InvalidContentRange))));
    assert!(r.take_outcome().is_some());
    assert!(matches!(r.phase, Phase::Taken));
    assert!(matches!(r.drive(), Action::Ready));
    assert!(r.outcome().is_none());
}

#[test]
fn resolver_api_error_ignores_malformed_range() {
    let mut r: Resolver<Vec<u32>> = Resolver::new(select().count(Count::Exact).unwrap());
    r.drive();
    let d = r.receive(false, Some("0-9/x".as_bytes()), b"{}".to_vec()).unwrap();
    assert!(!d.success);
    assert_eq!(d.bytes, b"{}".to_vec());
    r.fail(Ok(PostgrestError {
        code: "PGRST116".to_string(),
        details: "".to_string(),
        message: "none".to_string(),
    }));
    assert!(matches!(r.outcome(), Some(Err(QueryError::PostgrestError(e))) if e.code == "PGRST116"));
}
