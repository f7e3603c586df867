//! The pagination engine.
//!
//! A [`Traversal`] turns a chain of linked pages into one ordered sequence of
//! items. It performs no I/O itself: its driver asks it for the next [`Step`],
//! performs the fetch that a `Step::Fetch` names, and hands the outcome back
//! through [`Traversal::receive`]. Items of a page are handed out in the
//! page's own order; the link to the next page is followed only once every
//! item of the current page has been handed out, and only while the page cap
//! has not been reached. A cap of no pages fetches nothing.
use vstd::prelude::*;

use crate::error::Error;
use crate::page::{opt_view, Page, PageModel};

verus! {

/// Where a traversal stands.
#[derive(Debug)]
pub enum Phase {
    /// The first page has not been requested yet.
    Start,
    /// A page has been requested and its outcome not yet received.
    Awaiting,
    /// Items of the current page are being handed out.
    Running,
    /// A fetch failed: its error is the next and last thing produced.
    Failed(Error),
    /// The sequence has ended.
    Done,
}

/// What the driver of a traversal does next.
#[derive(Debug)]
pub enum Step<T> {
    /// Hand this item to the consumer.
    Yield(T),
    /// Fetch the page at this URL and hand the outcome to `receive`.
    Fetch(String),
    /// Hand this error to the consumer; the sequence ends after it.
    Fail(Error),
    /// The sequence has ended.
    End,
}

/// A step, as mathematical values.
pub enum StepModel<T> {
    Yield(T),
    Fetch(Seq<char>),
    Fail(Error),
    End,
}

impl<T> View for Step<T> {
    type V = StepModel<T>;

    open spec fn view(&self) -> StepModel<T> {
        match self {
            Step::Yield(x) => StepModel::Yield(*x),
            Step::Fetch(u) => StepModel::Fetch(u@),
            Step::Fail(e) => StepModel::Fail(*e),
            Step::End => StepModel::End,
        }
    }
}

/// The cursor of one walk over a paged collection.
pub struct Traversal<T> {
    first: String,
    /// The items of the current page that are still to come, last first.
    buffer: Vec<T>,
    link: Option<String>,
    pages: u64,
    cap: Option<u64>,
    phase: Phase,
}

/// The state of a traversal, as mathematical values.
pub struct TraversalModel<T> {
    /// The URL of the first page.
    pub first: Seq<char>,
    /// The items of the current page that are still to come, in order.
    pub items: Seq<T>,
    /// The link to the page after the current one.
    pub link: Option<Seq<char>>,
    /// How many pages have been received.
    pub pages: nat,
    /// The most pages to fetch; `None` for no bound.
    pub cap: Option<nat>,
    pub phase: Phase,
}

pub open spec fn cap_view(cap: Option<u64>) -> Option<nat> {
    match cap {
        Some(c) => Some(c as nat),
        None => None,
    }
}

/// The outcome of a fetch, as mathematical values.
pub open spec fn fetched_view<T>(r: Result<Page<T>, Error>) -> Result<PageModel<T>, Error> {
    match r {
        Ok(p) => Ok(p@),
        Err(e) => Err(e),
    }
}

impl<T> View for Traversal<T> {
    type V = TraversalModel<T>;

    closed spec fn view(&self) -> TraversalModel<T> {
        TraversalModel {
            first: self.first@,
            items: self.buffer@.reverse(),
            link: opt_view(self.link),
            pages: self.pages as nat,
            cap: cap_view(self.cap),
            phase: self.phase,
        }
    }
}

/// A fresh traversal that starts at `first` and fetches at most `cap` pages.
pub open spec fn start<T>(first: Seq<char>, cap: Option<nat>) -> TraversalModel<T> {
    TraversalModel { first, items: Seq::empty(), link: None, pages: 0, cap, phase: Phase::Start }
}

/// Whether the traversal has received as many pages as its cap allows.
pub open spec fn cap_reached<T>(m: TraversalModel<T>) -> bool {
    match m.cap {
        Some(c) => m.pages >= c,
        None => false,
    }
}

/// The step that a traversal in state `m` takes, and its state afterwards.
pub open spec fn next_spec<T>(m: TraversalModel<T>) -> (StepModel<T>, TraversalModel<T>) {
    match m.phase {
        Phase::Start => if cap_reached(m) {
            (StepModel::End, TraversalModel { phase: Phase::Done, ..m })
        } else {
            (StepModel::Fetch(m.first), TraversalModel { phase: Phase::Awaiting, ..m })
        },
        Phase::Awaiting => (StepModel::End, m),
        Phase::Failed(e) => (StepModel::Fail(e), TraversalModel { phase: Phase::Done, ..m }),
        Phase::Done => (StepModel::End, m),
        Phase::Running => {
            if m.items.len() > 0 {
                (StepModel::Yield(m.items[0]), TraversalModel { items: m.items.drop_first(), ..m })
            } else if cap_reached(m) {
                (StepModel::End, TraversalModel { phase: Phase::Done, ..m })
            } else {
                match m.link {
                    Some(u) => (StepModel::Fetch(u), TraversalModel { phase: Phase::Awaiting, ..m }),
                    None => (StepModel::End, TraversalModel { phase: Phase::Done, ..m }),
                }
            }
        },
    }
}

/// The state of a traversal in state `m` after the outcome `r` of its fetch.
///
/// A failure is kept to be produced next. A page replaces the current one;
/// an empty page that was reached through a link ends the sequence.
pub open spec fn receive_spec<T>(m: TraversalModel<T>, r: Result<PageModel<T>, Error>) -> TraversalModel<T> {
    if !(m.phase is Awaiting) {
        m
    } else {
        match r {
            Err(e) => TraversalModel { phase: Phase::Failed(e), ..m },
            Ok(p) => TraversalModel {
                items: p.collection,
                link: p.next_href,
                pages: if m.pages < u64::MAX { m.pages + 1 } else { m.pages },
                phase: if m.pages > 0 && p.collection.len() == 0 {
                    Phase::Done
                } else {
                    Phase::Running
                },
                ..m
            },
        }
    }
}

fn reversed<T>(v: Vec<T>) -> (r: Vec<T>)
    ensures
        r@ == v@.reverse(),
{
    let ghost v0 = v@;
    let mut v = v;
    let mut r: Vec<T> = Vec::new();
    while v.len() > 0
        invariant
            v@ + r@.reverse() == v0,
        decreases v.len(),
    {
        let ghost before = v@;
        let x = v.pop().unwrap();
        proof {
            let rr = r@.push(x).reverse();
            assert(rr =~= seq![x] + r@.reverse());
            assert(before =~= v@.push(x));
            assert(v@ + rr =~= before + r@.reverse());
        }
        r.push(x);
    }
    proof {
        assert(v@ =~= Seq::<T>::empty());
        assert(r@.reverse() =~= v0);
        assert(r@ =~= v0.reverse());
    }
    r
}

impl<T> Traversal<T> {
    fn cap_reached(&self) -> (r: bool)
        ensures
            r == cap_reached(self@),
    {
        match self.cap {
            Some(c) => self.pages >= c,
            None => false,
        }
    }

    /// A traversal that starts at the page `first` and fetches at most `cap`
    /// pages, or follows every link when `cap` is `None`.
    pub fn new(first: String, cap: Option<u64>) -> (r: Self)
        ensures
            r@ == start::<T>(first@, cap_view(cap)),
    {
        let r = Traversal { first, buffer: Vec::new(), link: None, pages: 0, cap, phase: Phase::Start };
        proof {
            assert(r@.items =~= Seq::<T>::empty());
        }
        r
    }

    /// The next step of the walk.
    pub fn next(&mut self) -> (s: Step<T>)
        ensures
            (s@, final(self)@) == next_spec(old(self)@),
    {
        let mut phase = Phase::Done;
        std::mem::swap(&mut phase, &mut self.phase);
        match phase {
            Phase::Start => {
                if self.cap_reached() {
                    Step::End
                } else {
                    self.phase = Phase::Awaiting;
                    Step::Fetch(self.first.clone())
                }
            },
            Phase::Awaiting => {
                self.phase = Phase::Awaiting;
                Step::End
            },
            Phase::Failed(e) => Step::Fail(e),
            Phase::Done => Step::End,
            Phase::Running => {
                let ghost items = self@.items;
                match self.buffer.pop() {
                    Some(x) => {
                        self.phase = Phase::Running;
                        proof {
                            assert(self@.items =~= items.drop_first());
                        }
                        Step::Yield(x)
                    },
                    None => {
                        if self.cap_reached() {
                            Step::End
                        } else {
                            match &self.link {
                                Some(u) => {
                                    self.phase = Phase::Awaiting;
                                    Step::Fetch(u.clone())
                                },
                                None => Step::End,
                            }
                        }
                    },
                }
            },
        }
    }

    /// Hands the traversal the outcome of the fetch that its last step asked
    /// for. Outside of that moment the outcome is ignored.
    pub fn receive(&mut self, r: Result<Page<T>, Error>)
        ensures
            final(self)@ == receive_spec(old(self)@, fetched_view(r)),
    {
        let awaiting = match self.phase {
            Phase::Awaiting => true,
            _ => false,
        };
        if !awaiting {
            return;
        }
        match r {
            Err(e) => {
                self.phase = Phase::Failed(e);
                proof {
                    assert(self@.items =~= old(self)@.items);
                }
            },
            Ok(page) => {
                let Page { collection, next_href } = page;
                let reached_by_link = self.pages > 0;
                if self.pages < u64::MAX {
                    self.pages = self.pages + 1;
                }
                if reached_by_link && collection.len() == 0 {
                    self.phase = Phase::Done;
                } else {
                    self.phase = Phase::Running;
                }
                let ghost items = collection@;
                self.buffer = reversed(collection);
                self.link = next_href;
                proof {
                    assert(self.buffer@.reverse() =~= items);
                }
            },
        }
    }
}


/// What a walk produces and which pages it asks for.
pub struct Outcome<T> {
    /// The items and the error handed to the consumer, in order.
    pub produced: Seq<Result<T, Error>>,
    /// The URLs fetched, in order.
    pub fetched: Seq<Seq<char>>,
}

/// The outcome of driving a traversal in state `m` to its end, when its
/// fetches are answered, in order, by `answers`. A walk that asks for more
/// pages than there are answers stops at that request.
pub open spec fn run<T>(m: TraversalModel<T>, answers: Seq<Result<PageModel<T>, Error>>) -> Outcome<T>
    decreases answers.len(), m.items.len(),
{
    let (s, n) = next_spec(m);
    match s {
        StepModel::Yield(x) => {
            let o = run(n, answers);
            Outcome { produced: seq![Ok(x)] + o.produced, fetched: o.fetched }
        },
        StepModel::Fetch(u) => {
            if answers.len() == 0 {
                Outcome { produced: Seq::empty(), fetched: seq![u] }
            } else {
                let o = run(receive_spec(n, answers[0]), answers.drop_first());
                Outcome { produced: o.produced, fetched: seq![u] + o.fetched }
            }
        },
        StepModel::Fail(e) => Outcome { produced: seq![Err(e)], fetched: Seq::empty() },
        StepModel::End => Outcome { produced: Seq::empty(), fetched: Seq::empty() },
    }
}

/// The items of `pages`, page after page.
pub open spec fn items_of<T>(pages: Seq<PageModel<T>>) -> Seq<T>
    decreases pages.len(),
{
    if pages.len() == 0 {
        Seq::empty()
    } else {
        pages[0].collection + items_of(pages.drop_first())
    }
}

/// The sum of the lengths of the collections of `pages`.
pub open spec fn total_items<T>(pages: Seq<PageModel<T>>) -> nat
    decreases pages.len(),
{
    if pages.len() == 0 {
        0
    } else {
        pages[0].collection.len() + total_items(pages.drop_first())
    }
}

/// Items as they reach the consumer.
pub open spec fn oks<T>(items: Seq<T>) -> Seq<Result<T, Error>> {
    items.map_values(|x: T| Ok(x))
}

/// Pages as the fetcher hands them over.
pub open spec fn served<T>(pages: Seq<PageModel<T>>) -> Seq<Result<PageModel<T>, Error>> {
    pages.map_values(|p: PageModel<T>| Ok(p))
}

/// The links of every page of `pages` but the last.
pub open spec fn links<T>(pages: Seq<PageModel<T>>) -> Seq<Seq<char>> {
    Seq::new((if pages.len() > 0 { pages.len() - 1 } else { 0 }) as nat, |i: int| pages[i].next_href->Some_0)
}

/// A chain of pages: each links onward but the last, which links nowhere.
pub open spec fn is_chain<T>(pages: Seq<PageModel<T>>) -> bool {
    &&& pages.len() > 0
    &&& forall|i: int| 0 <= i < pages.len() - 1 ==> (#[trigger] pages[i]).next_href is Some
    &&& pages.last().next_href is None
}

/// No page strictly between the first and the `k`-th is empty.
pub open spec fn inner_pages_filled<T>(pages: Seq<PageModel<T>>, k: int) -> bool {
    forall|i: int| 0 < i < k - 1 ==> (#[trigger] pages[i]).collection.len() > 0
}

/// How many pages of a chain of `len` pages a walk with `cap` visits.
pub open spec fn pages_visited(len: nat, cap: Option<nat>) -> nat {
    match cap {
        Some(c) => if c < len { c } else { len },
        None => len,
    }
}

/// The state of a walk over `pages` right after it has received page `i`.
pub open spec fn after_page<T>(first: Seq<char>, cap: Option<nat>, pages: Seq<PageModel<T>>, i: int) -> TraversalModel<T> {
    TraversalModel {
        first,
        items: pages[i].collection,
        link: pages[i].next_href,
        pages: (i + 1) as nat,
        cap,
        phase: if i > 0 && pages[i].collection.len() == 0 { Phase::Done } else { Phase::Running },
    }
}

proof fn lemma_items_of_total<T>(pages: Seq<PageModel<T>>)
    ensures
        items_of(pages).len() == total_items(pages),
    decreases pages.len(),
{
    if pages.len() > 0 {
        lemma_items_of_total(pages.drop_first());
    }
}

proof fn lemma_hand_out<T>(m: TraversalModel<T>, answers: Seq<Result<PageModel<T>, Error>>)
    requires
        m.phase is Running,
    ensures
        run(m, answers) == (Outcome {
            produced: oks(m.items) + run(TraversalModel { items: Seq::empty(), ..m }, answers).produced,
            fetched: run(TraversalModel { items: Seq::empty(), ..m }, answers).fetched,
        }),
    decreases m.items.len(),
{
    let e = TraversalModel { items: Seq::empty(), ..m };
    if m.items.len() > 0 {
        let n = TraversalModel { items: m.items.drop_first(), ..m };
        lemma_hand_out(n, answers);
        assert(TraversalModel { items: Seq::empty(), ..n } == e);
        assert(oks(m.items) =~= seq![Ok(m.items[0])] + oks(n.items));
        assert(oks(m.items) + run(e, answers).produced =~= seq![Ok(m.items[0])] + (oks(n.items) + run(e, answers).produced));
    } else {
        assert(m.items =~= Seq::<T>::empty());
        assert(m == e);
        assert(oks(m.items) + run(e, answers).produced =~= run(e, answers).produced);
    }
}

proof fn lemma_walk<T>(first: Seq<char>, cap: Option<nat>, pages: Seq<PageModel<T>>, i: int)
    requires
        is_chain(pages),
        pages.len() < u64::MAX,
        cap is Some ==> cap->Some_0 >= 1,
        0 <= i < pages_visited(pages.len(), cap),
        inner_pages_filled(pages, pages_visited(pages.len(), cap) as int),
    ensures
        run(after_page(first, cap, pages, i), served(pages).skip(i + 1)) == (Outcome {
            produced: oks(items_of(pages.subrange(i, pages_visited(pages.len(), cap) as int))),
            fetched: links(pages.subrange(i, pages_visited(pages.len(), cap) as int)),
        }),
    decreases pages_visited(pages.len(), cap) - i,
{
    let k = pages_visited(pages.len(), cap) as int;
    let m = after_page(first, cap, pages, i);
    let answers = served(pages).skip(i + 1);
    let sub = pages.subrange(i, k);
    assert(sub.drop_first() =~= pages.subrange(i + 1, k));
    assert(items_of(sub) == pages[i].collection + items_of(pages.subrange(i + 1, k)));
    if m.phase is Done {
        assert(i == k - 1);
        assert(pages.subrange(i + 1, k) =~= Seq::<PageModel<T>>::empty());
        assert(oks(items_of(sub)) =~= Seq::<Result<T, Error>>::empty());
        assert(links(sub) =~= Seq::<Seq<char>>::empty());
    } else {
        let e = TraversalModel { items: Seq::<T>::empty(), ..m };
        lemma_hand_out(m, answers);
        if i + 1 == k {
            assert(pages.subrange(i + 1, k) =~= Seq::<PageModel<T>>::empty());
            assert(items_of(sub) =~= pages[i].collection);
            assert(links(sub) =~= Seq::<Seq<char>>::empty());
            assert(run(e, answers).produced =~= Seq::<Result<T, Error>>::empty());
            assert(oks(m.items) + run(e, answers).produced =~= oks(items_of(sub)));
        } else {
            assert(pages[i].next_href is Some);
            let u = pages[i].next_href->Some_0;
            let w = TraversalModel { phase: Phase::Awaiting, ..e };
            assert(next_spec(e) == (StepModel::<T>::Fetch(u), w));
            assert(answers[0] == Ok::<PageModel<T>, Error>(pages[i + 1]));
            assert(receive_spec(w, answers[0]) == after_page(first, cap, pages, i + 1));
            assert(answers.drop_first() =~= served(pages).skip(i + 2));
            lemma_walk(first, cap, pages, i + 1);
            let rest = pages.subrange(i + 1, k);
            assert(oks(items_of(sub)) =~= oks(m.items) + oks(items_of(rest)));
            assert(links(sub) =~= seq![u] + links(rest));
        }
    }
}

/// Following every link of a chain of pages hands out exactly the items of
/// all its pages, page after page and each page in its own order, and so as
/// many items as the pages hold together; it fetches the first page and then
/// each link once. An empty page reached through a link ends the walk, so no
/// page but the first and the last may be empty.
pub proof fn lemma_unbounded_walk<T>(first: Seq<char>, pages: Seq<PageModel<T>>)
    requires
        is_chain(pages),
        pages.len() < u64::MAX,
        inner_pages_filled(pages, pages.len() as int),
    ensures
        run(start(first, None), served(pages)) == (Outcome {
            produced: oks(items_of(pages)),
            fetched: seq![first] + links(pages),
        }),
        run(start::<T>(first, None), served(pages)).produced.len() == total_items(pages),
{
    let s = start::<T>(first, None);
    let w = TraversalModel { phase: Phase::Awaiting, ..s };
    assert(served(pages)[0] == Ok::<PageModel<T>, Error>(pages[0]));
    assert(receive_spec(w, served(pages)[0]) == after_page(first, None, pages, 0));
    assert(served(pages).drop_first() =~= served(pages).skip(1));
    lemma_walk(first, None, pages, 0);
    assert(pages.subrange(0, pages.len() as int) =~= pages);
    lemma_items_of_total(pages);
}

/// A walk with a cap of `n` pages fetches at most `n` pages, whatever the
/// fetches return.
pub proof fn lemma_cap_bounds_fetches<T>(first: Seq<char>, n: u64, answers: Seq<Result<PageModel<T>, Error>>)
    ensures
        run(start::<T>(first, Some(n as nat)), answers).fetched.len() <= n,
{
    let s = start::<T>(first, Some(n as nat));
    let w = TraversalModel { phase: Phase::Awaiting, ..s };
    if n > 0 && answers.len() > 0 {
        lemma_fetches_left(receive_spec(w, answers[0]), n, answers.drop_first());
    }
}

proof fn lemma_fetches_left<T>(m: TraversalModel<T>, n: u64, answers: Seq<Result<PageModel<T>, Error>>)
    requires
        m.cap == Some(n as nat),
        m.pages <= n,
        !(m.phase is Start),
    ensures
        run(m, answers).fetched.len() <= n - m.pages,
    decreases answers.len(), m.items.len(),
{
    let (s, k) = next_spec(m);
    match s {
        StepModel::Yield(x) => {
            lemma_fetches_left(k, n, answers);
        },
        StepModel::Fetch(u) => {
            if answers.len() > 0 {
                lemma_fetches_left(receive_spec(k, answers[0]), n, answers.drop_first());
            }
        },
        _ => {},
    }
}

/// A walk with a cap of `n` pages over a chain hands out exactly the items
/// of the first `n` pages of the chain, or of all of them where the chain
/// is shorter, and fetches just those pages: the first, then each link
/// followed.
pub proof fn lemma_capped_walk<T>(first: Seq<char>, pages: Seq<PageModel<T>>, n: u64)
    requires
        is_chain(pages),
        pages.len() < u64::MAX,
        inner_pages_filled(pages, pages_visited(pages.len(), Some(n as nat)) as int),
    ensures
        run(start::<T>(first, Some(n as nat)), served(pages)).produced
            == oks(items_of(pages.take(pages_visited(pages.len(), Some(n as nat)) as int))),
        n > 0 ==> run(start::<T>(first, Some(n as nat)), served(pages)).fetched
            == seq![first] + links(pages.take(pages_visited(pages.len(), Some(n as nat)) as int)),
        run(start::<T>(first, Some(n as nat)), served(pages)).fetched.len() == pages_visited(pages.len(), Some(n as nat)),
        pages_visited(pages.len(), Some(n as nat)) <= n,
{
    let cap = Some(n as nat);
    let k = pages_visited(pages.len(), cap) as int;
    if n == 0 {
        assert(pages.take(0) =~= Seq::<PageModel<T>>::empty());
        assert(oks(items_of(pages.take(0))) =~= Seq::<Result<T, Error>>::empty());
    } else {
        let s = start::<T>(first, cap);
        let w = TraversalModel { phase: Phase::Awaiting, ..s };
        assert(served(pages)[0] == Ok::<PageModel<T>, Error>(pages[0]));
        assert(receive_spec(w, served(pages)[0]) == after_page(first, cap, pages, 0));
        assert(served(pages).drop_first() =~= served(pages).skip(1));
        lemma_walk(first, cap, pages, 0);
        assert(pages.subrange(0, k) =~= pages.take(k));
    }
}

/// Walking an unchanged chain again hands out the same items in the same
/// order, whichever URL each walk was started from.
pub proof fn lemma_walk_again<T>(first: Seq<char>, again: Seq<char>, pages: Seq<PageModel<T>>)
    requires
        is_chain(pages),
        pages.len() < u64::MAX,
        inner_pages_filled(pages, pages.len() as int),
    ensures
        run(start::<T>(first, None), served(pages)).produced == run(start::<T>(again, None), served(pages)).produced,
{
    lemma_unbounded_walk(first, pages);
    lemma_unbounded_walk(again, pages);
}

/// A first page that is empty and links nowhere ends the walk with nothing
/// produced and no error, whatever cap lets the first page be fetched.
pub proof fn lemma_empty_first_page<T>(first: Seq<char>, cap: Option<nat>, answers: Seq<Result<PageModel<T>, Error>>)
    requires
        cap != Some(0nat),
        answers.len() >= 1,
        answers[0] matches Ok(p) && p.collection.len() == 0 && p.next_href is None,
    ensures
        run(start::<T>(first, cap), answers) == (Outcome::<T> { produced: Seq::empty(), fetched: seq![first] }),
{
    let s = start::<T>(first, cap);
    let w = TraversalModel { phase: Phase::Awaiting, ..s };
    let m = receive_spec(w, answers[0]);
    assert(run(m, answers.drop_first()).fetched =~= Seq::<Seq<char>>::empty());
    assert(seq![first] + Seq::<Seq<char>>::empty() =~= seq![first]);
}

/// A failed fetch of the first page makes its error the only thing produced.
pub proof fn lemma_first_fetch_fails<T>(first: Seq<char>, cap: Option<nat>, answers: Seq<Result<PageModel<T>, Error>>)
    requires
        cap != Some(0nat),
        answers.len() >= 1,
        answers[0] is Err,
    ensures
        run(start::<T>(first, cap), answers) == (Outcome::<T> {
            produced: seq![Err(answers[0]->Err_0)],
            fetched: seq![first],
        }),
{
    let s = start::<T>(first, cap);
    let w = TraversalModel { phase: Phase::Awaiting, ..s };
    let m = receive_spec(w, answers[0]);
    assert(m.phase == Phase::Failed(answers[0]->Err_0));
    assert(run(m, answers.drop_first()) == (Outcome::<T> { produced: seq![Err(answers[0]->Err_0)], fetched: Seq::empty() }));
    assert(seq![first] + Seq::<Seq<char>>::empty() =~= seq![first]);
}

} // verus!
