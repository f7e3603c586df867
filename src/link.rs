//! URLs: reading and extending their query.
//!
//! Parsing and serialising URLs is left to the `url` crate; this module
//! decides which pairs a request URL carries.
use vstd::prelude::*;

use crate::error::Error;

verus! {

#[verifier::external_type_specification]
#[verifier::external_body]
pub struct ExParseError(url::ParseError);

/// Whether `url::Url::parse` accepts the text as an absolute URL.
pub uninterp spec fn url_parses(s: Seq<char>) -> bool;

/// The decoded name and value pairs of the query of the URL that the text
/// parses to, in order, as `url::Url::query_pairs` gives them.
pub uninterp spec fn url_query(s: Seq<char>) -> Seq<(Seq<char>, Seq<char>)>;

/// The serialisation of the URL that the text parses to, after the pairs
/// have been form-encoded and appended to its query.
pub uninterp spec fn url_with_pairs(s: Seq<char>, pairs: Seq<(Seq<char>, Seq<char>)>) -> Seq<char>;

/// The views of a sequence of name and value pairs.
pub open spec fn pairs_view(p: Seq<(String, String)>) -> Seq<(Seq<char>, Seq<char>)> {
    p.map_values(|x: (String, String)| (x.0@, x.1@))
}

/// Whether a pair named `name` is among `pairs`.
pub open spec fn has_name(pairs: Seq<(Seq<char>, Seq<char>)>, name: Seq<char>) -> bool {
    exists|i: int| 0 <= i < pairs.len() && (#[trigger] pairs[i]).0 == name
}

/// Relies on `url::Url::parse` and `url::Url::query_pairs`: the query pairs
/// of the parsed URL, decoded and owned.
#[verifier::external_body]
fn parse_query(link: &str) -> (r: Result<Vec<(String, String)>, url::ParseError>)
    ensures
        r is Ok == url_parses(link@),
        r matches Ok(q) ==> pairs_view(q@) == url_query(link@),
{
    let url = url::Url::parse(link)?;
    Ok(url.query_pairs().into_owned().collect())
}

/// Relies on `url::Url::parse` and `url::Url::query_pairs_mut`: the parsed
/// URL with the pairs appended to its query, serialised.
#[verifier::external_body]
fn append_pairs(link: &str, pairs: &Vec<(String, String)>) -> (r: Result<String, url::ParseError>)
    ensures
        r is Ok == url_parses(link@),
        r matches Ok(s) ==> s@ == url_with_pairs(link@, pairs_view(pairs@)),
{
    let mut url = url::Url::parse(link)?;
    url.query_pairs_mut().extend_pairs(pairs.iter());
    Ok(url.into())
}

/// The decoded query pairs of `link`.
pub fn query_pairs(link: &str) -> (r: Result<Vec<(String, String)>, Error>)
    ensures
        url_parses(link@) ==> (r matches Ok(q) && pairs_view(q@) == url_query(link@)),
        !url_parses(link@) ==> r == Err::<Vec<(String, String)>, Error>(Error::InvalidUrl),
{
    match parse_query(link) {
        Ok(q) => Ok(q),
        Err(_) => Err(Error::InvalidUrl),
    }
}

/// `link` with the pairs appended to its query.
pub fn with_pairs(link: &str, pairs: &Vec<(String, String)>) -> (r: Result<String, Error>)
    ensures
        url_parses(link@) ==> (r matches Ok(s) && s@ == url_with_pairs(link@, pairs_view(pairs@))),
        !url_parses(link@) ==> r == Err::<String, Error>(Error::InvalidUrl),
{
    match append_pairs(link, pairs) {
        Ok(s) => Ok(s),
        Err(_) => Err(Error::InvalidUrl),
    }
}

/// Whether a pair named `name` is among `pairs`.
pub fn contains_name(pairs: &Vec<(String, String)>, name: &str) -> (r: bool)
    ensures
        r == has_name(pairs_view(pairs@), name@),
{
    let key = name.to_owned();
    let mut i: usize = 0;
    while i < pairs.len()
        invariant
            i <= pairs@.len(),
            key@ == name@,
            forall|j: int| 0 <= j < i ==> pairs@[j].0@ != name@,
        decreases pairs.len() - i,
    {
        if pairs[i].0.eq(&key) {
            assert(pairs_view(pairs@)[i as int].0 == name@);
            return true;
        }
        i = i + 1;
    }
    assert forall|j: int| 0 <= j < pairs_view(pairs@).len() implies #[trigger] pairs_view(pairs@)[j].0 != name@ by {
        assert(pairs_view(pairs@)[j].0 == pairs@[j].0@);
    }
    false
}

/// `link` as it is sent: with a pair `name=value` appended to its query,
/// unless the query already has a pair of that name, in which case `link`
/// is left as it is.
pub fn with_pair_if_missing(link: &str, name: &str, value: &str) -> (r: Result<String, Error>)
    ensures
        !url_parses(link@) ==> r == Err::<String, Error>(Error::InvalidUrl),
        url_parses(link@) && has_name(url_query(link@), name@) ==> (r matches Ok(s) && s@ == link@),
        url_parses(link@) && !has_name(url_query(link@), name@) ==> (r matches Ok(s) && s@
            == url_with_pairs(link@, seq![(name@, value@)])),
{
    let pairs = query_pairs(link)?;
    if contains_name(&pairs, name) {
        Ok(link.to_owned())
    } else {
        let mut extra: Vec<(String, String)> = Vec::new();
        extra.push((name.to_owned(), value.to_owned()));
        proof {
            assert(pairs_view(extra@) =~= seq![(name@, value@)]);
        }
        with_pairs(link, &extra)
    }
}

/// The last place in `pairs` of a pair named `name`, or -1 where there is none.
pub open spec fn position_of(pairs: Seq<(Seq<char>, Seq<char>)>, name: Seq<char>) -> int
    decreases pairs.len(),
{
    if pairs.len() == 0 {
        -1
    } else if pairs.last().0 == name {
        pairs.len() - 1
    } else {
        position_of(pairs.drop_last(), name)
    }
}

/// `pairs` with `name` set to `value`: the pair of that name takes the new
/// value where there is one, and the pair is added at the end otherwise.
pub open spec fn set_pair(pairs: Seq<(Seq<char>, Seq<char>)>, name: Seq<char>, value: Seq<char>) -> Seq<(Seq<char>, Seq<char>)> {
    let k = position_of(pairs, name);
    if k >= 0 {
        pairs.update(k, (name, value))
    } else {
        pairs.push((name, value))
    }
}

/// The pairs with one pair for each name, the last value given for it, in
/// the order in which the names first appear.
pub open spec fn table_of(pairs: Seq<(Seq<char>, Seq<char>)>) -> Seq<(Seq<char>, Seq<char>)>
    decreases pairs.len(),
{
    if pairs.len() == 0 {
        Seq::empty()
    } else {
        set_pair(table_of(pairs.drop_last()), pairs.last().0, pairs.last().1)
    }
}

proof fn lemma_position_bounds(pairs: Seq<(Seq<char>, Seq<char>)>, name: Seq<char>)
    ensures
        -1 <= position_of(pairs, name) < pairs.len(),
        position_of(pairs, name) >= 0 ==> pairs[position_of(pairs, name)].0 == name,
    decreases pairs.len(),
{
    if pairs.len() > 0 {
        lemma_position_bounds(pairs.drop_last(), name);
    }
}

/// Sets `name` to `value` among `pairs`.
pub fn set_param(pairs: &mut Vec<(String, String)>, name: String, value: String)
    ensures
        pairs_view(final(pairs)@) == set_pair(pairs_view(old(pairs)@), name@, value@),
        final(pairs)@.len() > 0,
{
    let ghost pv = pairs_view(pairs@);
    let mut found: Option<usize> = None;
    let mut i: usize = 0;
    while i < pairs.len()
        invariant
            i <= pairs@.len(),
            pv == pairs_view(pairs@),
            match found {
                Some(k) => k < i && position_of(pv.take(i as int), name@) == k as int,
                None => position_of(pv.take(i as int), name@) == -1,
            },
        decreases pairs.len() - i,
    {
        assert(pv.take(i + 1).drop_last() =~= pv.take(i as int));
        if pairs[i].0.eq(&name) {
            found = Some(i);
        }
        i = i + 1;
    }
    assert(pv.take(i as int) =~= pv);
    proof {
        lemma_position_bounds(pv, name@);
    }
    match found {
        Some(k) => {
            pairs.set(k, (name, value));
            assert(pairs_view(pairs@) =~= pv.update(k as int, (name@, value@)));
        },
        None => {
            pairs.push((name, value));
            assert(pairs_view(pairs@) =~= pv.push((name@, value@)));
        },
    }
}

/// The path segments of the URL that the text parses to, as
/// `url::Url::path_segments` gives them: `None` for a URL that cannot be a base.
pub uninterp spec fn url_path_segments(s: Seq<char>) -> Option<Seq<Seq<char>>>;

/// The views of an optional sequence of strings.
pub open spec fn opt_texts(p: Option<Vec<String>>) -> Option<Seq<Seq<char>>> {
    match p {
        Some(v) => Some(v@.map_values(|x: String| x@)),
        None => None,
    }
}

/// Relies on `url::Url::parse` and `url::Url::path_segments`: the path
/// segments of the parsed URL, owned.
#[verifier::external_body]
fn parse_path_segments(link: &str) -> (r: Result<Option<Vec<String>>, url::ParseError>)
    ensures
        r is Ok == url_parses(link@),
        r matches Ok(p) ==> opt_texts(p) == url_path_segments(link@),
{
    let url = url::Url::parse(link)?;
    Ok(url.path_segments().map(|segments| segments.map(|s| s.to_owned()).collect()))
}

/// The path segments of `link`, or `None` where it cannot be a base.
pub fn path_segments(link: &str) -> (r: Result<Option<Vec<String>>, Error>)
    ensures
        url_parses(link@) ==> (r matches Ok(p) && opt_texts(p) == url_path_segments(link@)),
        !url_parses(link@) ==> r == Err::<Option<Vec<String>>, Error>(Error::InvalidUrl),
{
    match parse_path_segments(link) {
        Ok(p) => Ok(p),
        Err(_) => Err(Error::InvalidUrl),
    }
}

/// A pair named `name` where there is a value, nothing otherwise.
pub open spec fn opt_pair(name: Seq<char>, value: Option<Seq<char>>) -> Seq<(Seq<char>, Seq<char>)> {
    match value {
        Some(v) => seq![(name, v)],
        None => Seq::empty(),
    }
}

/// Appends a pair named `name` to `pairs` where there is a value.
pub fn push_opt(pairs: &mut Vec<(String, String)>, name: &str, value: &Option<String>)
    ensures
        pairs_view(final(pairs)@) == pairs_view(old(pairs)@) + opt_pair(name@, crate::page::opt_view(*value)),
{
    let ghost p0 = pairs@;
    match value {
        Some(v) => {
            pairs.push((name.to_owned(), v.clone()));
            assert(pairs_view(pairs@) =~= pairs_view(p0) + opt_pair(name@, crate::page::opt_view(*value)));
        },
        None => {
            assert(pairs_view(pairs@) =~= pairs_view(p0) + opt_pair(name@, crate::page::opt_view(*value)));
        },
    }
}

} // verus!
