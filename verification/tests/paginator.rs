use stripe_requests::deleted_product::DeletedProduct;
use stripe_requests::error::{DecodeError, FetchError, TransportError};
use stripe_requests::ids::SubscriptionItemId;
use stripe_requests::list::{decode_page_text, List};
use stripe_requests::paginator::{ListPaginator, Step};
use stripe_requests::params::Param;
use stripe_requests::request::{RequestBuilder, StripeMethod};
use stripe_requests::subscription_item::requests::{
    ListSubscriptionItem, UsageRecordSummariesSubscriptionItem,
};
use stripe_requests::topup::requests::ListTopup;
use stripe_requests::usage_record_summary::types::UsageRecordSummary;

fn pairs(items: &[(&str, &str)]) -> Vec<Param> {
    items.iter().map(|(k, v)| Param { key: k.to_string(), value: v.to_string() }).collect()
}

fn page(ids: &[&str], has_more: bool) -> String {
    let data: Vec<String> =
        ids.iter().map(|id| format!(r#"{{"deleted": true, "id": "{}"}}"#, id)).collect();
    format!(
        r#"{{"object": "list", "url": "/v1/products", "has_more": {}, "data": [{}]}}"#,
        has_more,
        data.join(", ")
    )
}

/// Drives a traversal against canned responses until `wanted` objects are
/// out or the traversal ends; gives the objects, the requests made and
/// the error, if one ended it.
fn run_against(
    start: ListPaginator<DeletedProduct>,
    responses: Vec<Result<String, TransportError>>,
    wanted: usize,
) -> (Vec<String>, Vec<RequestBuilder>, Option<FetchError>) {
    let mut responses = responses.into_iter();
    let mut items = Vec::new();
    let mut requests = Vec::new();
    let mut paginator = start;
    while items.len() < wanted {
        match paginator.next() {
            Step::Item(item, rest) => {
                items.push(item.id.as_str().to_string());
                paginator = rest;
            }
            Step::Fetch(pending) => {
                requests.push(pending.request());
                let response = responses.next().expect("a request beyond the canned responses");
                match pending.receive_response(response) {
                    Ok(next) => paginator = next,
                    Err(e) => return (items, requests, Some(e)),
                }
            }
            Step::End => break,
        }
    }
    (items, requests, None)
}

fn query(r: &RequestBuilder) -> Vec<Param> {
    r.query.clone().unwrap()
}

#[test]
fn a_full_traversal_yields_every_object_in_order() {
    let p = ListPaginator::new_list("/products".to_string(), pairs(&[("limit", "2")])).unwrap();
    let responses = vec![Ok(page(&["a", "b"], true)), Ok(page(&["c"], false))];
    let (items, requests, error) = run_against(p, responses, usize::MAX);
    assert_eq!(items, vec!["a", "b", "c"]);
    assert_eq!(error, None);
    assert_eq!(requests.len(), 2);
    assert_eq!(requests[0].method, StripeMethod::Get);
    assert_eq!(requests[0].path, "/products");
    assert_eq!(requests[0].body, None);
    assert_eq!(query(&requests[0]), pairs(&[("limit", "2")]));
    assert_eq!(requests[1].path, "/products");
    assert_eq!(query(&requests[1]), pairs(&[("limit", "2"), ("starting_after", "b")]));
}

#[test]
fn an_early_stop_makes_no_second_request() {
    let p = ListPaginator::new_list("/products".to_string(), vec![]).unwrap();
    let responses = vec![Ok(page(&["a", "b"], true)), Ok(page(&["c"], false))];
    let (items, requests, error) = run_against(p, responses, 1);
    assert_eq!(items, vec!["a"]);
    assert_eq!(requests.len(), 1);
    assert_eq!(error, None);
    // the whole first page is had for that one request
    let p = ListPaginator::new_list("/products".to_string(), vec![]).unwrap();
    let responses = vec![Ok(page(&["a", "b"], true)), Ok(page(&["c"], false))];
    let (items, requests, _) = run_against(p, responses, 2);
    assert_eq!(items, vec!["a", "b"]);
    assert_eq!(requests.len(), 1);
}

#[test]
fn no_request_before_the_first_demand() {
    let p: ListPaginator<DeletedProduct> =
        ListPaginator::new_list("/products".to_string(), vec![]).unwrap();
    let (items, requests, error) = run_against(p, vec![], 0);
    assert_eq!(items.len(), 0);
    assert_eq!(requests.len(), 0);
    assert_eq!(error, None);
}

#[test]
fn a_backward_traversal_never_asks_forward() {
    let params = pairs(&[("ending_before", "m"), ("limit", "2")]);
    let p = ListPaginator::new_list("/products".to_string(), params).unwrap();
    let responses = vec![
        Ok(page(&["k", "l"], true)),
        Ok(page(&["i", "j"], true)),
        Ok(page(&["h"], false)),
    ];
    let (items, requests, error) = run_against(p, responses, usize::MAX);
    assert_eq!(error, None);
    assert_eq!(items, vec!["k", "l", "i", "j", "h"]);
    assert_eq!(requests.len(), 3);
    assert_eq!(query(&requests[0]), pairs(&[("ending_before", "m"), ("limit", "2")]));
    assert_eq!(query(&requests[1]), pairs(&[("ending_before", "k"), ("limit", "2")]));
    assert_eq!(query(&requests[2]), pairs(&[("ending_before", "i"), ("limit", "2")]));
    for r in &requests {
        assert!(query(r).iter().all(|p| p.key != "starting_after"));
    }
}

#[test]
fn a_forward_traversal_replaces_the_cursor_it_was_given() {
    let params = pairs(&[("starting_after", "a"), ("status", "pending")]);
    let p = ListPaginator::new_list("/topups".to_string(), params).unwrap();
    let responses = vec![Ok(page(&["b", "c"], true)), Ok(page(&["d"], true)), Ok(page(&[], true))];
    let (items, requests, error) = run_against(p, responses, usize::MAX);
    assert_eq!(error, None);
    assert_eq!(items, vec!["b", "c", "d"]);
    assert_eq!(requests.len(), 3);
    assert_eq!(query(&requests[0]), pairs(&[("starting_after", "a"), ("status", "pending")]));
    assert_eq!(query(&requests[1]), pairs(&[("starting_after", "c"), ("status", "pending")]));
    assert_eq!(query(&requests[2]), pairs(&[("starting_after", "d"), ("status", "pending")]));
    for r in &requests {
        assert!(query(r).iter().all(|p| p.key != "ending_before"));
    }
}

#[test]
fn both_cursors_are_refused() {
    let params = pairs(&[("starting_after", "a"), ("ending_before", "z")]);
    assert!(ListPaginator::<DeletedProduct>::new_list("/products".to_string(), params).is_none());
}

#[test]
fn an_empty_list_ends_after_one_request() {
    let p = ListPaginator::new_list("/products".to_string(), vec![]).unwrap();
    let (items, requests, error) = run_against(p, vec![Ok(page(&[], false))], usize::MAX);
    assert_eq!(items.len(), 0);
    assert_eq!(requests.len(), 1);
    assert_eq!(error, None);
}

#[test]
fn a_transport_error_ends_the_traversal_where_it_happens() {
    let p = ListPaginator::new_list("/products".to_string(), vec![]).unwrap();
    let failure = TransportError { status: Some(503), message: "unavailable".to_string() };
    let responses = vec![Ok(page(&["a"], true)), Err(failure.clone())];
    let (items, requests, error) = run_against(p, responses, usize::MAX);
    assert_eq!(items, vec!["a"]);
    assert_eq!(requests.len(), 2);
    assert_eq!(error, Some(FetchError::Transport(failure)));
}

#[test]
fn a_page_that_is_no_json_is_malformed() {
    let p = ListPaginator::new_list("/products".to_string(), vec![]).unwrap();
    let (items, requests, error) =
        run_against(p, vec![Ok("<html>busy</html>".to_string())], usize::MAX);
    assert_eq!(items.len(), 0);
    assert_eq!(requests.len(), 1);
    assert_eq!(error, Some(FetchError::Decode(DecodeError::MalformedPage)));
}

#[test]
fn a_page_without_its_fields_is_malformed() {
    for text in [
        r#"{"data": []}"#,
        r#"{"has_more": false}"#,
        r#"{"data": {}, "has_more": false}"#,
        r#"{"data": [], "has_more": "no"}"#,
        r#"{"data": [], "has_more": false, "url": 3}"#,
        r#"[]"#,
        r#"null"#,
    ] {
        assert_eq!(
            decode_page_text::<DeletedProduct>(text),
            Err(DecodeError::MalformedPage),
            "{}",
            text
        );
    }
}

#[test]
fn a_page_decodes_with_or_without_its_url() {
    let with = decode_page_text::<DeletedProduct>(&page(&["a"], true)).unwrap();
    assert_eq!(with.url, "/v1/products");
    assert!(with.has_more);
    assert_eq!(with.data.len(), 1);
    assert_eq!(with.data[0].id.as_str(), "a");
    let without =
        decode_page_text::<DeletedProduct>(r#"{"has_more": false, "data": [], "url": null}"#);
    assert_eq!(without, Ok(List { data: vec![], has_more: false, url: String::new() }));
    let without = decode_page_text::<DeletedProduct>(r#"{"has_more": false, "data": []}"#);
    assert_eq!(without, Ok(List { data: vec![], has_more: false, url: String::new() }));
}

#[test]
fn a_bad_object_fails_the_page_with_its_own_error() {
    let text = r#"{"has_more": true, "data": [
        {"deleted": true, "id": "a"}, {"deleted": true}, {"id": "c"}]}"#;
    let p = ListPaginator::new_list("/products".to_string(), vec![]).unwrap();
    let (items, requests, error) = run_against(p, vec![Ok(text.to_string())], usize::MAX);
    assert_eq!(items.len(), 0);
    assert_eq!(requests.len(), 1);
    assert_eq!(
        error,
        Some(FetchError::Decode(DecodeError::MissingField {
            record: "DeletedProduct",
            field: "id",
        }))
    );
}

#[test]
fn receiving_a_page_directly() {
    let p: ListPaginator<UsageRecordSummary> =
        ListPaginator::new_list("/x".to_string(), vec![]).unwrap();
    let pending = match p.next() {
        Step::Fetch(pending) => pending,
        other => panic!("{:?}", other),
    };
    let failure = FetchError::Decode(DecodeError::MalformedPage);
    assert_eq!(pending.receive(Err(failure.clone())).err(), Some(failure));
    let p: ListPaginator<UsageRecordSummary> =
        ListPaginator::new_list("/x".to_string(), vec![]).unwrap();
    let pending = match p.next() {
        Step::Fetch(pending) => pending,
        other => panic!("{:?}", other),
    };
    let next = pending.receive(Ok(List { data: vec![], has_more: true, url: String::new() }));
    assert!(matches!(next.unwrap().next(), Step::End));
}

fn products(ids: &[&str], has_more: bool) -> List<DeletedProduct> {
    decode_page_text(&page(ids, has_more)).unwrap()
}

#[test]
fn driving_over_pages_at_hand() {
    let p = ListPaginator::new_list("/products".to_string(), pairs(&[("limit", "2")])).unwrap();
    let run =
        p.drive(vec![Ok(products(&["a", "b"], true)), Ok(products(&["c"], false))], usize::MAX);
    let ids: Vec<&str> = run.items.iter().map(|x| x.id.as_str()).collect();
    assert_eq!(ids, vec!["a", "b", "c"]);
    assert_eq!(run.error, None);
    assert_eq!(run.requests.len(), 2);
    assert_eq!(query(&run.requests[0]), pairs(&[("limit", "2")]));
    assert_eq!(query(&run.requests[1]), pairs(&[("limit", "2"), ("starting_after", "b")]));
}

#[test]
fn driving_for_a_few_objects_only() {
    let pages = || vec![Ok(products(&["a", "b"], true)), Ok(products(&["c"], false))];
    let start = || ListPaginator::new_list("/products".to_string(), vec![]).unwrap();
    let run = start().drive(pages(), 0);
    assert_eq!((run.items.len(), run.requests.len()), (0, 0));
    let run = start().drive(pages(), 1);
    assert_eq!((run.items.len(), run.requests.len()), (1, 1));
    assert_eq!(run.items[0].id.as_str(), "a");
    let run = start().drive(pages(), 2);
    assert_eq!((run.items.len(), run.requests.len()), (2, 1));
    let run = start().drive(pages(), 3);
    assert_eq!((run.items.len(), run.requests.len()), (3, 2));
    assert_eq!(run.items[2].id.as_str(), "c");
    let run = start().drive(pages(), 4);
    assert_eq!((run.items.len(), run.requests.len()), (3, 2));
    assert_eq!(run.error, None);
}

#[test]
fn driving_stops_where_the_outcomes_or_the_list_end() {
    let start = || ListPaginator::new_list("/products".to_string(), vec![]).unwrap();
    // more pages than the list has
    let run = start().drive(vec![Ok(products(&["a"], false)), Ok(products(&["b"], false))], 9);
    assert_eq!((run.items.len(), run.requests.len()), (1, 1));
    // fewer pages than the list has
    let run = start().drive(vec![Ok(products(&["a"], true))], 9);
    assert_eq!((run.items.len(), run.requests.len()), (1, 1));
    // no pages at all
    let run = start().drive(vec![], 9);
    assert_eq!((run.items.len(), run.requests.len()), (0, 0));
    // an empty page ends the list though it says that more follow
    let run = start().drive(vec![Ok(products(&[], true)), Ok(products(&["b"], false))], 9);
    assert_eq!((run.items.len(), run.requests.len()), (0, 1));
    assert_eq!(run.error, None);
}

#[test]
fn driving_into_an_error() {
    let failure = FetchError::Transport(TransportError { status: None, message: "reset".into() });
    let start = || ListPaginator::new_list("/products".to_string(), vec![]).unwrap();
    let outcomes = || {
        vec![
            Ok(products(&["a", "b"], true)),
            Err(failure.clone()),
            Ok(products(&["c"], false)),
        ]
    };
    let run = start().drive(outcomes(), usize::MAX);
    assert_eq!(run.items.len(), 2);
    assert_eq!(run.requests.len(), 2);
    assert_eq!(run.error, Some(failure.clone()));
    // the error is not met where the traversal stops before it
    let run = start().drive(outcomes(), 2);
    assert_eq!(run.items.len(), 2);
    assert_eq!(run.requests.len(), 1);
    assert_eq!(run.error, None);
    let run = start().drive(vec![Err(failure.clone())], 1);
    assert_eq!((run.items.len(), run.requests.len()), (0, 1));
    assert_eq!(run.error, Some(failure));
}

#[test]
fn requests_start_a_traversal() {
    let p = ListSubscriptionItem::new("sub_1").limit(2).paginate::<DeletedProduct>().unwrap();
    let (_, requests, _) =
        run_against(p, vec![Ok(page(&["a"], true)), Ok(page(&["b"], false))], usize::MAX);
    assert_eq!(requests[0].path, "/subscription_items");
    assert_eq!(query(&requests[0]), pairs(&[("limit", "2"), ("subscription", "sub_1")]));
    assert_eq!(
        query(&requests[1]),
        pairs(&[("limit", "2"), ("subscription", "sub_1"), ("starting_after", "a")])
    );

    let p = ListTopup::new().ending_before("tu_9").paginate::<DeletedProduct>().unwrap();
    let (_, requests, _) =
        run_against(p, vec![Ok(page(&["x", "y"], true)), Ok(page(&[], false))], usize::MAX);
    assert_eq!(requests[0].path, "/topups");
    assert_eq!(query(&requests[0]), pairs(&[("ending_before", "tu_9")]));
    assert_eq!(query(&requests[1]), pairs(&[("ending_before", "x")]));

    assert!(ListTopup::new()
        .ending_before("a")
        .starting_after("b")
        .paginate::<DeletedProduct>()
        .is_none());
    assert!(ListSubscriptionItem::new("s")
        .starting_after("b")
        .ending_before("a")
        .paginate::<DeletedProduct>()
        .is_none());
}

#[test]
fn usage_record_summaries_are_traversed() {
    let id = SubscriptionItemId::new("si_1");
    let p = UsageRecordSummariesSubscriptionItem::new(&id).paginate().unwrap();
    let pending = match p.next() {
        Step::Fetch(pending) => pending,
        other => panic!("{:?}", other),
    };
    assert_eq!(pending.request().path, "/subscription_items/si_1/usage_record_summaries");
    let text = r#"{"has_more": true, "data": [{"id": "urs_1", "livemode": false, "period": {},
        "subscription_item": "si_1", "total_usage": 3}]}"#;
    let p = pending.receive_response(Ok(text.to_string())).unwrap();
    let (item, p) = match p.next() {
        Step::Item(item, rest) => (item, rest),
        other => panic!("{:?}", other),
    };
    assert_eq!(item.total_usage, 3);
    match p.next() {
        Step::Fetch(pending) => {
            assert_eq!(query(&pending.request()), pairs(&[("starting_after", "urs_1")]))
        }
        other => panic!("{:?}", other),
    }
    let other = SubscriptionItemId::new("si_2");
    let both =
        UsageRecordSummariesSubscriptionItem::new(&other).starting_after("a").ending_before("b");
    assert!(both.paginate().is_none());
}
