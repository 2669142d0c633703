//! The response envelopes shared by every endpoint, and the pagination
//! protocol the list endpoints follow.

use vstd::prelude::*;

verus! {

/// The envelope around any list or detail response. The presence of
/// `cursor` is the sole signal that more pages exist.
#[derive(Debug, Clone)]
pub struct StandardResult<T> {
    pub request_id: String,
    pub cached: bool,
    pub cache_expires_at: Option<String>,
    pub cursor: Option<String>,
    pub result: T,
}

impl<T> StandardResult<T> {
    /// Whether more pages exist: exactly when a cursor is present.
    pub fn has_next(&self) -> (r: bool)
        ensures
            r == (self.cursor is Some),
    {
        match &self.cursor {
            Option::Some(_) => true,
            Option::None => false,
        }
    }
}

/// The asynchronous task descriptor returned by state-changing calls.
#[derive(Debug, Clone)]
pub struct Task {
    pub id: String,
    pub url: String,
    pub expires_at: String,
}

/// The envelope for state-changing operations.
#[derive(Debug, Clone)]
pub struct ActionResult {
    pub request_id: String,
    pub order_id: u32,
    pub action: String,
    pub value: u32,
    pub task: Task,
}

/// All items carried by a sequence of pages, in page order.
pub open spec fn items_of<T>(pages: Seq<StandardResult<Vec<T>>>) -> Seq<T>
    decreases pages.len(),
{
    if pages.len() == 0 {
        Seq::empty()
    } else {
        items_of(pages.drop_last()) + pages.last().result@
    }
}

/// One step of the pagination loop: fold a page into the accumulator and
/// hand back the cursor to continue with, absent exactly on the final page.
pub fn take_page<T>(acc: &mut Vec<T>, page: StandardResult<Vec<T>>) -> (next: Option<String>)
    ensures
        final(acc)@ == old(acc)@ + page.result@,
        next == page.cursor,
{
    let mut items = page.result;
    acc.append(&mut items);
    page.cursor
}

/// Where only the last page omits the cursor, any outcome the pagination
/// loop guarantees — it stops right after the first cursor-less page,
/// having collected the consumed pages' items — consumes every page and
/// collects exactly the union of all pages' items.
pub proof fn lemma_pagination_collects_everything<T>(
    pages: Seq<StandardResult<Vec<T>>>,
    consumed: int,
    items: Seq<T>,
)
    requires
        pages.len() > 0,
        forall|i: int| 0 <= i < pages.len() - 1 ==> pages[i].cursor is Some,
        pages[pages.len() - 1].cursor is None,
        0 < consumed <= pages.len(),
        pages[consumed - 1].cursor is None,
        forall|i: int| 0 <= i < consumed - 1 ==> pages[i].cursor is Some,
        items == items_of(pages.take(consumed)),
    ensures
        consumed == pages.len(),
        items == items_of(pages),
{
    assert(consumed == pages.len());
    assert(pages.take(consumed) =~= pages);
}

/// The accumulating pagination loop, run over the pages a vendor would
/// serve: it folds pages in order, stops right after the first page without
/// a cursor, and returns the collected items together with how many pages it
/// consumed. The items are exactly the union, in order, of the consumed
/// pages' items.
#[verifier::loop_isolation(false)]
pub fn collect_pages<T>(pages: Vec<StandardResult<Vec<T>>>) -> (r: (Vec<T>, usize))
    requires
        exists|i: int| 0 <= i < pages@.len() && pages@[i].cursor is None,
    ensures
        0 < r.1 <= pages@.len(),
        pages@[r.1 - 1].cursor is None,
        forall|i: int| 0 <= i < r.1 - 1 ==> pages@[i].cursor is Some,
        r.0@ == items_of(pages@.take(r.1 as int)),
{
    let ghost orig = pages@;
    let mut rest = pages;
    let total = rest.len();
    let mut acc: Vec<T> = Vec::new();
    let mut k: usize = 0;
    loop
        invariant
            orig.len() == total,
            k <= orig.len(),
            rest@ == orig.skip(k as int),
            acc@ == items_of(orig.take(k as int)),
            forall|i: int| 0 <= i < k ==> orig[i].cursor is Some,
            exists|i: int| k <= i < orig.len() && #[trigger] orig[i].cursor is None,
        decreases orig.len() - k,
    {
        let page = rest.remove(0);
        assert(page == orig[k as int]);
        let next = take_page(&mut acc, page);
        k = k + 1;
        proof {
            assert(orig.take(k as int).drop_last() =~= orig.take(k - 1));
            assert(orig.take(k as int).last() == orig[k - 1]);
            assert(acc@ =~= items_of(orig.take(k as int)));
        }
        if next.is_none() {
            return (acc, k);
        }
    }
}

} // verus!
