use soundcloud::{Error, Page, Step, Traversal};

/// Pages served by URL; a URL that is not served fails the fetch.
fn serve(url: &str, pages: &[(&str, Vec<u32>, Option<&str>)]) -> Result<Page<u32>, Error> {
    for (at, items, next) in pages {
        if *at == url {
            return Ok(Page { collection: items.clone(), next_href: next.map(|n| n.to_string()) });
        }
    }
    Err(Error::Http(format!("no page at {}", url)))
}

/// Drives a traversal to its end and returns what it produced and the URLs
/// it fetched.
fn walk(first: &str, cap: Option<u64>, pages: &[(&str, Vec<u32>, Option<&str>)]) -> (Vec<Result<u32, Error>>, Vec<String>) {
    let mut t: Traversal<u32> = Traversal::new(first.to_string(), cap);
    let mut produced = Vec::new();
    let mut fetched = Vec::new();
    loop {
        match t.next() {
            Step::Yield(x) => produced.push(Ok(x)),
            Step::Fetch(url) => {
                let r = serve(&url, pages);
                fetched.push(url);
                t.receive(r);
            },
            Step::Fail(e) => produced.push(Err(e)),
            Step::End => break,
        }
    }
    (produced, fetched)
}

fn items(produced: &[Result<u32, Error>]) -> Vec<u32> {
    produced.iter().map(|r| *r.as_ref().unwrap()).collect()
}

fn range(from: u32, to: u32) -> Vec<u32> {
    (from..to).collect()
}

#[test]
fn unbounded_walk_over_two_pages() {
    let pages = [("page-a", range(0, 15), Some("page-b")), ("page-b", range(15, 18), None)];
    let (produced, fetched) = walk("page-a", None, &pages);
    assert_eq!(produced.len(), 18);
    assert_eq!(items(&produced), range(0, 18));
    assert_eq!(fetched, vec!["page-a".to_string(), "page-b".to_string()]);
}

#[test]
fn cap_of_one_page_never_follows_the_link() {
    let pages = [("page-a", range(0, 15), Some("page-b")), ("page-b", range(15, 18), None)];
    let (produced, fetched) = walk("page-a", Some(1), &pages);
    assert_eq!(items(&produced), range(0, 15));
    assert_eq!(fetched, vec!["page-a".to_string()]);
}

#[test]
fn first_two_of_five_pages() {
    let pages = [
        ("page-a", range(0, 15), Some("page-b")),
        ("page-b", range(15, 30), Some("page-c")),
        ("page-c", range(30, 45), Some("page-d")),
        ("page-d", range(45, 60), Some("page-e")),
        ("page-e", range(60, 75), None),
    ];
    let (produced, fetched) = walk("page-a", Some(2), &pages);
    assert_eq!(produced.len(), 30);
    assert_eq!(items(&produced), range(0, 30));
    assert_eq!(fetched.len(), 2);
}

#[test]
fn unbounded_count_is_the_sum_of_page_sizes() {
    let pages = [("A", range(0, 4), Some("B")), ("B", range(4, 11), Some("C")), ("C", range(11, 12), None)];
    let (produced, fetched) = walk("A", None, &pages);
    assert_eq!(produced.len(), 4 + 7 + 1);
    assert_eq!(items(&produced), range(0, 12));
    assert_eq!(fetched, vec!["A".to_string(), "B".to_string(), "C".to_string()]);
}

#[test]
fn cap_beyond_the_chain_visits_every_page() {
    let pages = [("A", range(0, 3), Some("B")), ("B", range(3, 5), None)];
    let (produced, fetched) = walk("A", Some(7), &pages);
    assert_eq!(items(&produced), range(0, 5));
    assert_eq!(fetched.len(), 2);
}

#[test]
fn walking_again_gives_the_same_items() {
    let pages = [("A", vec![9, 4, 7], Some("B")), ("B", vec![1, 8], None)];
    let (first, _) = walk("A", None, &pages);
    let (second, _) = walk("A", None, &pages);
    assert_eq!(items(&first), items(&second));
    assert_eq!(items(&first), vec![9, 4, 7, 1, 8]);
}

#[test]
fn empty_first_page_without_link_yields_nothing() {
    let pages = [("A", vec![], None)];
    let (produced, fetched) = walk("A", None, &pages);
    assert!(produced.is_empty());
    assert_eq!(fetched.len(), 1);
}

#[test]
fn failed_first_fetch_is_the_only_element() {
    let (produced, fetched) = walk("missing", None, &[]);
    assert_eq!(produced.len(), 1);
    assert!(matches!(produced[0], Err(Error::Http(_))));
    assert_eq!(fetched.len(), 1);
}

#[test]
fn failure_after_first_page_ends_after_its_items() {
    let pages = [("A", vec![1, 2], Some("gone"))];
    let (produced, _) = walk("A", None, &pages);
    assert_eq!(produced.len(), 3);
    assert_eq!(*produced[0].as_ref().unwrap(), 1);
    assert_eq!(*produced[1].as_ref().unwrap(), 2);
    assert!(produced[2].is_err());
}

#[test]
fn empty_page_reached_by_link_ends_the_walk() {
    let pages = [("A", vec![1], Some("B")), ("B", vec![], Some("C")), ("C", vec![2], None)];
    let (produced, fetched) = walk("A", None, &pages);
    assert_eq!(items(&produced), vec![1]);
    assert_eq!(fetched.len(), 2);
}

#[test]
fn empty_first_page_still_follows_its_link() {
    let pages = [("A", vec![], Some("B")), ("B", vec![5, 6], None)];
    let (produced, _) = walk("A", None, &pages);
    assert_eq!(items(&produced), vec![5, 6]);
}

#[test]
fn steps_while_awaiting_end_and_stray_pages_are_ignored() {
    let mut t: Traversal<u32> = Traversal::new("A".to_string(), None);
    t.receive(Ok(Page { collection: vec![3], next_href: None }));
    assert!(matches!(t.next(), Step::Fetch(ref u) if u == "A"));
    assert!(matches!(t.next(), Step::End));
    t.receive(Ok(Page { collection: vec![4], next_href: None }));
    assert!(matches!(t.next(), Step::Yield(4)));
    assert!(matches!(t.next(), Step::End));
    assert!(matches!(t.next(), Step::End));
}

#[test]
fn page_is_empty() {
    let empty: Page<u32> = Page { collection: vec![], next_href: None };
    let full: Page<u32> = Page { collection: vec![1], next_href: None };
    assert!(empty.is_empty());
    assert!(!full.is_empty());
}

#[test]
fn cap_of_no_pages_fetches_nothing() {
    let pages = [("A", vec![1, 2], None)];
    let (produced, fetched) = walk("A", Some(0), &pages);
    assert!(produced.is_empty());
    assert!(fetched.is_empty());
}
