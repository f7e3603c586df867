//! Pages of a collection, and the options sent with the first request.
use vstd::prelude::*;

use crate::error::Error;
use crate::link::{pairs_view, query_pairs, set_param, set_pair, table_of, url_parses, url_query};
use crate::text::{decimal, to_decimal};

verus! {

/// One page of a collection as the API returns it.
#[derive(Debug, Clone)]
pub struct Page<T> {
    /// The items of this page, in the API's order.
    pub collection: Vec<T>,
    /// The URL of the next page, if there is one.
    pub next_href: Option<String>,
}

/// What a page holds, as mathematical values.
pub struct PageModel<T> {
    pub collection: Seq<T>,
    pub next_href: Option<Seq<char>>,
}

/// The view of an optional string.
pub open spec fn opt_view(s: Option<String>) -> Option<Seq<char>> {
    match s {
        Some(t) => Some(t@),
        None => None,
    }
}

impl<T> View for Page<T> {
    type V = PageModel<T>;

    open spec fn view(&self) -> PageModel<T> {
        PageModel { collection: self.collection@, next_href: opt_view(self.next_href) }
    }
}

impl<T> Page<T> {
    /// Whether the page holds no items.
    pub fn is_empty(&self) -> (r: bool)
        ensures
            r == (self.collection@.len() == 0),
    {
        self.collection.len() == 0
    }
}

/// The number of items per page that the default options ask for.
pub const DEFAULT_PAGE_SIZE: u32 = 15;

/// The form encoding of the pairs, joined by `&`, as
/// `url::form_urlencoded::Serializer` writes it.
pub uninterp spec fn form_encoded(pairs: Seq<(Seq<char>, Seq<char>)>) -> Seq<char>;

/// Relies on `url::form_urlencoded::Serializer`: the pairs form-encoded in
/// order into a fresh string.
#[verifier::external_body]
fn encode_form(pairs: &Vec<(String, String)>) -> (r: String)
    ensures
        r@ == form_encoded(pairs_view(pairs@)),
{
    url::form_urlencoded::Serializer::new(String::new()).extend_pairs(pairs.iter()).finish()
}

/// The query parameters sent with the first request of a walk, one value for
/// each name.
pub struct PageOptions {
    params: Vec<(String, String)>,
}

impl View for PageOptions {
    type V = Seq<(Seq<char>, Seq<char>)>;

    closed spec fn view(&self) -> Seq<(Seq<char>, Seq<char>)> {
        pairs_view(self.params@)
    }
}

/// The parameters that ask for pages of `n` items through links.
pub open spec fn with_page_size(params: Seq<(Seq<char>, Seq<char>)>, n: nat) -> Seq<(Seq<char>, Seq<char>)> {
    set_pair(set_pair(params, "linked_partitioning"@, "true"@), "page_size"@, decimal(n))
}

fn copy_pairs(pairs: &Vec<(String, String)>) -> (r: Vec<(String, String)>)
    ensures
        pairs_view(r@) == pairs_view(pairs@),
{
    let mut r: Vec<(String, String)> = Vec::new();
    let mut i: usize = 0;
    while i < pairs.len()
        invariant
            i <= pairs@.len(),
            pairs_view(r@) == pairs_view(pairs@).take(i as int),
        decreases pairs.len() - i,
    {
        let name = pairs[i].0.clone();
        let value = pairs[i].1.clone();
        assert(name@ == pairs@[i as int].0@ && value@ == pairs@[i as int].1@);
        let ghost r0 = r@;
        r.push((name, value));
        assert(pairs_view(r@) =~= pairs_view(r0).push(pairs_view(pairs@)[i as int]));
        assert(pairs_view(r@) =~= pairs_view(pairs@).take(i + 1));
        i = i + 1;
    }
    assert(pairs_view(pairs@).take(i as int) =~= pairs_view(pairs@));
    r
}

impl PageOptions {
    fn new() -> (r: Self)
        ensures
            r@ == Seq::<(Seq<char>, Seq<char>)>::empty(),
    {
        let r = PageOptions { params: Vec::new() };
        assert(r@ =~= Seq::<(Seq<char>, Seq<char>)>::empty());
        r
    }

    /// A builder that starts from no parameters.
    pub fn builder() -> (r: PageOptionsBuilder)
        ensures
            r@ == Seq::<(Seq<char>, Seq<char>)>::empty(),
    {
        PageOptionsBuilder(PageOptions::new())
    }

    /// The parameters as a form-encoded query string, or `None` where there
    /// are none.
    pub fn serialize(&self) -> (r: Option<String>)
        ensures
            self@.len() == 0 ==> r is None,
            self@.len() > 0 ==> (r matches Some(s) && s@ == form_encoded(self@)),
    {
        if self.params.len() == 0 {
            None
        } else {
            Some(encode_form(&self.params))
        }
    }
}

impl Default for PageOptions {
    /// Pages of fifteen items, through links.
    fn default() -> (r: Self)
        ensures
            r@ == with_page_size(Seq::empty(), DEFAULT_PAGE_SIZE as nat),
    {
        let mut b = PageOptions::builder();
        b.page_size(DEFAULT_PAGE_SIZE);
        b.build()
    }
}

/// Builds a set of page options.
pub struct PageOptionsBuilder(PageOptions);

impl View for PageOptionsBuilder {
    type V = Seq<(Seq<char>, Seq<char>)>;

    closed spec fn view(&self) -> Seq<(Seq<char>, Seq<char>)> {
        self.0@
    }
}

impl PageOptionsBuilder {
    /// Asks for pages of `n` items, and for links between pages.
    pub fn page_size(&mut self, n: u32) -> (r: &mut Self)
        ensures
            r@ == with_page_size(old(self)@, n as nat),
            final(self)@ == final(r)@,
    {
        set_param(&mut self.0.params, "linked_partitioning".to_owned(), "true".to_owned());
        set_param(&mut self.0.params, "page_size".to_owned(), to_decimal(n as u64));
        self
    }

    /// The options built so far.
    pub fn build(&self) -> (r: PageOptions)
        ensures
            r@ == self@,
    {
        PageOptions { params: copy_pairs(&self.0.params) }
    }
}

impl<T> Page<T> {
    /// The query pairs of the link to the next page, one for each name with
    /// the last value given for it; `None` where there is no link or its
    /// query holds no pair.
    pub fn next_query(&self) -> (r: Result<Option<Vec<(String, String)>>, Error>)
        ensures
            self.next_href is None ==> r == Ok::<Option<Vec<(String, String)>>, Error>(None),
            self.next_href is Some && !url_parses(self.next_href->Some_0@) ==> r == Err::<Option<Vec<(String, String)>>, Error>(Error::InvalidUrl),
            self.next_href is Some && url_parses(self.next_href->Some_0@) && url_query(self.next_href->Some_0@).len() == 0
                ==> r == Ok::<Option<Vec<(String, String)>>, Error>(None),
            self.next_href is Some && url_parses(self.next_href->Some_0@) && url_query(self.next_href->Some_0@).len() > 0
                ==> (r matches Ok(Some(t)) && pairs_view(t@) == table_of(url_query(self.next_href->Some_0@))),
    {
        match &self.next_href {
            None => Ok(None),
            Some(h) => {
                let q = query_pairs(h.as_str())?;
                let ghost qv = pairs_view(q@);
                let mut table: Vec<(String, String)> = Vec::new();
                let mut i: usize = 0;
                while i < q.len()
                    invariant
                        i <= q@.len(),
                        qv == pairs_view(q@),
                        pairs_view(table@) == table_of(qv.take(i as int)),
                        i > 0 ==> table@.len() > 0,
                    decreases q.len() - i,
                {
                    assert(qv.take(i + 1).drop_last() =~= qv.take(i as int));
                    let name = q[i].0.clone();
                    let value = q[i].1.clone();
                    set_param(&mut table, name, value);
                    i = i + 1;
                }
                assert(qv.take(i as int) =~= qv);
                if table.len() == 0 {
                    Ok(None)
                } else {
                    Ok(Some(table))
                }
            },
        }
    }
}

} // verus!
