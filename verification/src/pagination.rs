//! Pages of a paginated fetch.

use crate::traits::Pagination;
use vstd::prelude::*;

verus! {

/// One page of results.
#[derive(Debug, Clone)]
pub struct Page {
    pub data: Vec<serde_json::Value>,
    /// What the source wants to be asked for the page after this one.
    pub next_token: Option<String>,
    /// The number of the page, counted from 1.
    pub page_number: Option<usize>,
}

impl Page {
    /// A page that holds `data` and names neither token nor number.
    pub fn new(data: Vec<serde_json::Value>) -> (page: Page)
        ensures
            page == (Page { data, next_token: None, page_number: None }),
    {
        Page { data, next_token: None, page_number: None }
    }

    /// The page with `token` as the token for the next page.
    pub fn with_next_token(self, token: String) -> (page: Page)
        ensures
            page == (Page { next_token: Some(token), ..self }),
    {
        let mut page = self;
        page.next_token = Some(token);
        page
    }

    /// The page with `page` as its number.
    pub fn with_page_number(self, page: usize) -> (numbered: Page)
        ensures
            numbered == (Page { page_number: Some(page), ..self }),
    {
        let mut numbered = self;
        numbered.page_number = Some(page);
        numbered
    }
}

/// Pages that are already at hand, given out one by one in their order.
#[derive(Debug)]
pub struct PageList {
    /// The pages not yet given out, the next one last.
    waiting: Vec<Page>,
}

impl View for PageList {
    type V = Seq<Page>;

    /// The pages not yet given out, the next one first.
    closed spec fn view(&self) -> Seq<Page> {
        self.waiting@.reverse()
    }
}

impl PageList {
    /// A list that gives out `pages` from the first to the last.
    pub fn new(pages: Vec<Page>) -> (list: PageList)
        ensures
            list@ == pages@,
    {
        let ghost given = pages@;
        let mut rest = pages;
        let mut waiting: Vec<Page> = Vec::new();
        while rest.len() > 0
            invariant
                rest@.len() <= given.len(),
                rest@ == given.take(rest@.len() as int),
                waiting@.reverse() == given.skip(rest@.len() as int),
            decreases rest@.len(),
        {
            let ghost at = rest@.len() - 1;
            let ghost before = waiting@;
            if let Some(page) = rest.pop() {
                waiting.push(page);
                proof {
                    assert(rest@ =~= given.take(at));
                    assert(waiting@.reverse() =~= seq![page] + before.reverse());
                    assert(given.skip(at) =~= seq![page] + given.skip(at + 1));
                }
            }
        }
        proof {
            assert(given.skip(0) =~= given);
        }
        PageList { waiting }
    }
}

impl Pagination for PageList {
    open spec fn upcoming(&self) -> Seq<Page> {
        self@
    }

    /// The next page of the list. A list never fails.
    fn next_page(&mut self) -> (page: Result<Option<Page>, anyhow::Error>)
        ensures
            page is Ok,
    {
        let ghost before = self.waiting@;
        let page = self.waiting.pop();
        proof {
            if before.len() > 0 {
                assert(self.waiting@.reverse() =~= before.reverse().drop_first());
            }
        }
        Ok(page)
    }

    fn has_more(&self) -> (more: bool) {
        self.waiting.len() > 0
    }
}

} // verus!
