use ecs_remote::paging::{collect_pages, Collector, Page};

fn page(items: &[&str], next_token: Option<&str>) -> Page<String> {
    Page {
        items: Some(items.iter().map(|item| item.to_string()).collect()),
        next_token: next_token.map(|token| token.to_string()),
    }
}

#[test]
fn pagination_returns_every_item_in_page_order() {
    let pages = vec![
        page(&["a0", "a1", "a2"], Some("t1")),
        page(&["b0", "b1", "b2"], Some("t2")),
        page(&["c0", "c1", "c2"], Some("t3")),
        page(&["d0", "d1", "d2"], None),
    ];
    let all = collect_pages(pages).unwrap();
    assert_eq!(all.len(), 4 * 3);
    assert_eq!(all, vec!["a0", "a1", "a2", "b0", "b1", "b2", "c0", "c1", "c2", "d0", "d1", "d2"]);
}

#[test]
fn pagination_with_one_page() {
    let all = collect_pages(vec![page(&["only"], None)]).unwrap();
    assert_eq!(all, vec!["only"]);
}

#[test]
fn empty_first_page_without_token_gives_an_empty_list() {
    let all = collect_pages(vec![page(&[], None)]);
    assert_eq!(all, Some(Vec::<String>::new()));
    let absent: Page<String> = Page { items: None, next_token: None };
    assert_eq!(collect_pages(vec![absent]), Some(Vec::<String>::new()));
}

#[test]
fn page_without_items_adds_nothing_but_keeps_the_listing_going() {
    let pages = vec![
        page(&["a"], Some("t1")),
        Page { items: None, next_token: Some("t2".to_string()) },
        page(&[], Some("t3")),
        page(&["b"], None),
    ];
    assert_eq!(collect_pages(pages), Some(vec!["a".to_string(), "b".to_string()]));
}

#[test]
fn listing_that_breaks_off_gives_nothing() {
    let pages = vec![page(&["a"], Some("t1")), page(&["b"], Some("t2"))];
    assert_eq!(collect_pages(pages), None);
    assert_eq!(collect_pages(Vec::<Page<String>>::new()), None);
}

#[test]
fn pages_behind_the_last_are_left_unread() {
    let pages = vec![page(&["a"], None), page(&["b"], Some("t")), page(&["c"], None)];
    assert_eq!(collect_pages(pages), Some(vec!["a".to_string()]));
}

#[test]
fn collector_asks_with_the_token_of_the_page_before() {
    let mut collector: Collector<String> = Collector::new();
    assert!(!collector.is_exhausted());
    assert_eq!(collector.cursor(), None);
    collector.accept(page(&["a"], Some("t1")));
    assert!(!collector.is_exhausted());
    assert_eq!(collector.cursor(), Some("t1".to_string()));
    collector.accept(page(&["b"], Some("t2")));
    assert_eq!(collector.cursor(), Some("t2".to_string()));
    collector.accept(page(&["c"], None));
    assert!(collector.is_exhausted());
    assert_eq!(collector.cursor(), None);
    assert_eq!(collector.finish(), Some(vec!["a".to_string(), "b".to_string(), "c".to_string()]));
}

#[test]
fn collector_hands_nothing_out_before_the_last_page() {
    let mut collector: Collector<String> = Collector::new();
    collector.accept(page(&["a"], Some("t1")));
    assert_eq!(collector.finish(), None);
    let fresh: Collector<String> = Collector::new();
    assert_eq!(fresh.finish(), None);
}

#[test]
fn collector_goes_on_until_the_last_page() {
    let mut collector: Collector<String> = Collector::new();
    collector.accept(page(&["a"], Some("t1")));
    let mut collector = match collector.finish_or_go_on() {
        Ok(_) => panic!("the listing is not at its end"),
        Err(collector) => collector,
    };
    assert_eq!(collector.cursor(), Some("t1".to_string()));
    collector.accept(page(&["b"], None));
    match collector.finish_or_go_on() {
        Ok(all) => assert_eq!(all, vec!["a", "b"]),
        Err(_) => panic!("the listing is at its end"),
    }
}

#[test]
fn collector_ignores_pages_after_the_last() {
    let mut collector: Collector<String> = Collector::new();
    collector.accept(page(&["a"], None));
    collector.accept(page(&["b"], Some("t")));
    assert!(collector.is_exhausted());
    assert_eq!(collector.cursor(), None);
    assert_eq!(collector.finish(), Some(vec!["a".to_string()]));
}

#[test]
fn collector_works_on_any_item_type() {
    let pages = vec![
        Page { items: Some(vec![1u32, 2, 3]), next_token: Some("n".to_string()) },
        Page { items: Some(vec![4u32, 5, 6]), next_token: None },
    ];
    assert_eq!(collect_pages(pages), Some(vec![1, 2, 3, 4, 5, 6]));
}
