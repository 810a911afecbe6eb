use get621::error::Error;
use get621::pool::{collect_pool, pool_page_from_members, pool_url, require_pool};
use get621::search::{
    collect_unordered, is_ordered_query, page_from_store, post_url, search_url, PageRequest,
    SearchCursor, LIST_HARD_LIMIT,
};

#[test]
fn ordering_detection() {
    assert!(is_ordered_query(&vec![String::from("fox"), String::from("order:score")]));
    assert!(!is_ordered_query(&vec![String::from("fox"), String::from("score")]));
    assert!(!is_ordered_query(&Vec::new()));
}

#[test]
fn ordered_search_above_cap_fails_before_any_request() {
    let tags = vec![String::from("order:score")];
    match SearchCursor::start(&tags, 321) {
        Err(Error::AboveLimit(requested, max)) => {
            assert_eq!(requested, 321);
            assert_eq!(max, 320);
        }
        _ => panic!("an ordered query above the cap must fail"),
    }
    // Exactly at the cap it proceeds.
    assert!(SearchCursor::start(&tags, 320).is_ok());
    // Unordered queries have no cap.
    assert!(SearchCursor::start(&vec![String::from("fox")], 100_000).is_ok());
    assert_eq!(LIST_HARD_LIMIT, 320);
}

#[test]
fn ordered_search_is_a_single_page() {
    let tags = vec![String::from("order:score")];
    let mut cursor = SearchCursor::start(&tags, 50).unwrap();
    let req = cursor.next_request().unwrap();
    assert_eq!(req.batch, 50);
    assert_eq!(req.before_id, None);
    cursor.accept_page(&vec![90, 80, 70]);
    assert!(cursor.next_request().is_none());
}

#[test]
fn unordered_cursor_steps_by_lowest_id() {
    let tags = vec![String::from("fox")];
    let mut cursor = SearchCursor::start(&tags, 5).unwrap();
    let req = cursor.next_request().unwrap();
    assert_eq!(req.batch, 5);
    assert_eq!(req.before_id, None);
    cursor.accept_page(&vec![10, 9]);
    let req = cursor.next_request().unwrap();
    assert_eq!(req.batch, 3);
    assert_eq!(req.before_id, Some(9));
    // An empty batch signals exhaustion.
    cursor.accept_page(&Vec::new());
    assert!(cursor.next_request().is_none());
}

#[test]
fn unordered_requests_never_exceed_the_hard_cap() {
    let tags = vec![String::from("fox")];
    let mut cursor = SearchCursor::start(&tags, 1000).unwrap();
    let req = cursor.next_request().unwrap();
    assert_eq!(req.batch, 320);
    // After a full batch, the next request asks for what is missing.
    let page: Vec<u64> = (0..320).map(|i| 2000 - i).collect();
    cursor.accept_page(&page);
    let req = cursor.next_request().unwrap();
    assert_eq!(req.batch, 320);
    assert_eq!(req.before_id, Some(1681));
}

#[test]
fn unordered_cursor_stops_at_the_limit() {
    let tags = vec![String::from("fox")];
    let mut cursor = SearchCursor::start(&tags, 2).unwrap();
    cursor.accept_page(&vec![10, 9]);
    assert!(cursor.next_request().is_none());
}

#[test]
fn unordered_search_returns_min_of_limit_and_total() {
    let store = vec![100, 90, 80, 70, 60];
    // Fewer available than the limit: everything comes back.
    assert_eq!(collect_unordered(&store, 10), vec![100, 90, 80, 70, 60]);
    // More available than the limit: exactly the limit comes back.
    assert_eq!(collect_unordered(&store, 3), vec![100, 90, 80]);
    assert_eq!(collect_unordered(&store, 0), Vec::<u64>::new());
    assert_eq!(collect_unordered(&Vec::new(), 3), Vec::<u64>::new());
}

#[test]
fn no_id_repeats_across_pages() {
    let mut store = Vec::new();
    let mut id = 2000u64;
    while store.len() < 700 {
        store.push(id);
        id -= 2;
    }
    let out = collect_unordered(&store, 650);
    assert_eq!(out.len(), 650);
    for i in 0..out.len() {
        for j in (i + 1)..out.len() {
            assert_ne!(out[i], out[j]);
        }
    }
}

#[test]
fn pages_honor_cursor_and_batch() {
    let store = vec![100, 90, 80, 70, 60];
    let page = page_from_store(&store, PageRequest { batch: 2, before_id: None });
    assert_eq!(page, vec![100, 90]);
    let page = page_from_store(&store, PageRequest { batch: 2, before_id: Some(90) });
    assert_eq!(page, vec![80, 70]);
    let page = page_from_store(&store, PageRequest { batch: 9, before_id: Some(70) });
    assert_eq!(page, vec![60]);
    let page = page_from_store(&store, PageRequest { batch: 9, before_id: Some(60) });
    assert_eq!(page, Vec::<u64>::new());
}

#[test]
fn search_url_percent_encodes_the_query() {
    let tags = vec![String::from("red fox"), String::from("rating:s")];
    let url = search_url(&tags, PageRequest { batch: 2, before_id: Some(50) });
    assert_eq!(
        url,
        "https://e621.net/post/index.json?limit=2&tags=red%20fox%20rating%3As&before_id=50"
    );
    let url = search_url(&vec![String::from("fox")], PageRequest { batch: 320, before_id: None });
    assert_eq!(url, "https://e621.net/post/index.json?limit=320&tags=fox");
}

#[test]
fn post_and_pool_urls() {
    assert_eq!(post_url(1234), "https://e621.net/post/show.json?id=1234");
    assert_eq!(pool_url(42, 2), "https://e621.net/pool/show.json?id=42&page=2");
}

#[test]
fn pool_lookup_requires_a_pool() {
    assert_eq!(require_pool(Some(vec![1, 2, 3])), Ok(vec![1, 2, 3]));
    assert_eq!(require_pool(None), Err(Error::PoolNotFound));
}

#[test]
fn pool_pages_concatenate_to_the_member_list() {
    let members = vec![5, 6, 7, 8, 9, 10, 11];
    assert_eq!(pool_page_from_members(&members, 1, 3), vec![5, 6, 7]);
    assert_eq!(pool_page_from_members(&members, 3, 3), vec![11]);
    assert_eq!(pool_page_from_members(&members, 4, 3), Vec::<u64>::new());
    assert_eq!(collect_pool(&members, 3), members);
    assert_eq!(collect_pool(&Vec::new(), 3), Vec::<u64>::new());
}
