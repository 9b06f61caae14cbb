use dstreams::pagination::{Page, PageList};
use dstreams::traits::{fetch_all, Pagination};
use serde_json::Value;

fn page(number: usize) -> Page {
    Page::new(vec![Value::from(number)]).with_page_number(number)
}

#[test]
fn page_new_holds_the_data_only() {
    let page = Page::new(vec![Value::from(1), Value::from(2)]);
    assert_eq!(page.data, vec![Value::from(1), Value::from(2)]);
    assert!(page.next_token.is_none());
    assert!(page.page_number.is_none());
}

#[test]
fn page_builders_set_token_and_number() {
    let page = Page::new(vec![]).with_next_token("abc".to_string()).with_page_number(1);
    assert!(page.data.is_empty());
    assert_eq!(page.next_token, Some("abc".to_string()));
    assert_eq!(page.page_number, Some(1));
    let renumbered = page.with_page_number(2);
    assert_eq!(renumbered.page_number, Some(2));
    assert_eq!(renumbered.next_token, Some("abc".to_string()));
}

#[test]
fn page_list_gives_each_page_once_and_then_none_for_ever() {
    let mut pages = PageList::new(vec![page(1), page(2), page(3)]);
    let mut numbers = vec![];
    let mut some = 0;
    for _ in 0..3 {
        assert!(pages.has_more());
        let next = pages.next_page().unwrap().expect("a page");
        numbers.push(next.page_number.unwrap());
        some += 1;
    }
    assert_eq!(some, 3);
    assert_eq!(numbers, vec![1, 2, 3]);
    for _ in 0..5 {
        assert!(!pages.has_more());
        assert!(pages.next_page().unwrap().is_none());
    }
}

#[test]
fn has_more_is_false_exactly_when_the_next_call_gives_none() {
    for count in 0..4usize {
        let mut pages = PageList::new((1..=count).map(page).collect());
        for _ in 0..(count + 2) {
            let more = pages.has_more();
            let next = pages.next_page().unwrap();
            assert_eq!(more, next.is_some());
        }
    }
}

#[test]
fn empty_page_list_has_nothing() {
    let mut pages = PageList::new(vec![]);
    assert!(!pages.has_more());
    assert!(pages.next_page().unwrap().is_none());
}

#[test]
fn fetch_all_collects_every_page_in_order() {
    let mut pages = PageList::new(vec![page(1), page(2), page(3), page(4)]);
    let fetched = fetch_all(&mut pages).unwrap();
    let numbers: Vec<usize> = fetched.iter().map(|p| p.page_number.unwrap()).collect();
    assert_eq!(numbers, vec![1, 2, 3, 4]);
    assert_eq!(fetched[2].data, vec![Value::from(3)]);
    assert!(!pages.has_more());
    assert!(fetch_all(&mut pages).unwrap().is_empty());
}

#[test]
fn fetch_all_picks_up_where_the_source_stands() {
    let mut pages = PageList::new(vec![page(1), page(2), page(3)]);
    pages.next_page().unwrap();
    let fetched = fetch_all(&mut pages).unwrap();
    let numbers: Vec<usize> = fetched.iter().map(|p| p.page_number.unwrap()).collect();
    assert_eq!(numbers, vec![2, 3]);
}

struct FailingSource {
    left: usize,
}

impl Pagination for FailingSource {
    fn next_page(&mut self) -> Result<Option<Page>, anyhow::Error> {
        if self.left == 0 {
            return Ok(None);
        }
        if self.left == 1 {
            return Err(anyhow::Error::msg("fetch failed"));
        }
        self.left -= 1;
        Ok(Some(Page::new(vec![])))
    }

    fn has_more(&self) -> bool {
        self.left > 0
    }
}

#[test]
fn fetch_all_hands_back_the_failure_of_the_source() {
    let mut source = FailingSource { left: 3 };
    let error = fetch_all(&mut source).unwrap_err();
    assert_eq!(error.to_string(), "fetch failed");
}
