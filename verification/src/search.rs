//! Reading the query parameters of the community search and the homepage:
//! the page offset, the category filter and which listing to fetch.

use vstd::prelude::*;
use vstd::string::*;
use crate::api::ApiResponse;
use crate::flows::DbResult;
use crate::responders::ApiResponse as RenderedResponse;
use crate::responses::{TemplateView, INTERNAL_SERVER_ERROR};

verus! {

/// The number of communities on one page of results.
pub const HOMEPAGE_COMMUNITY_LIMIT: i64 = 20;

/// The most categories a search filters by.
pub const MAX_CATEGORIES: usize = 3;

/// The pieces of `s` between commas (`str::split(',')`): one more piece
/// than there are commas, possibly empty.
pub open spec fn split_on_comma(s: Seq<char>) -> Seq<Seq<char>>
    decreases s.len(),
{
    if s.len() == 0 {
        seq![Seq::<char>::empty()]
    } else {
        let pieces = split_on_comma(s.drop_last());
        if s.last() == ',' {
            pieces.push(Seq::<char>::empty())
        } else {
            pieces.update(pieces.len() - 1, pieces.last().push(s.last()))
        }
    }
}

/// `xs` without repetitions, each kept where it first occurs.
pub open spec fn first_occurrences(xs: Seq<Seq<char>>) -> Seq<Seq<char>>
    decreases xs.len(),
{
    if xs.len() == 0 {
        Seq::empty()
    } else {
        let kept = first_occurrences(xs.drop_last());
        if kept.contains(xs.last()) {
            kept
        } else {
            kept.push(xs.last())
        }
    }
}

/// The first `n` elements of `xs` (all of them when there are fewer).
pub open spec fn at_most<A>(xs: Seq<A>, n: int) -> Seq<A> {
    if xs.len() <= n {
        xs
    } else {
        xs.take(n)
    }
}

/// The text of a list of strings.
pub open spec fn texts(xs: Seq<String>) -> Seq<Seq<char>> {
    xs.map_values(|s: String| s@)
}

proof fn lemma_split_nonempty(s: Seq<char>)
    ensures
        split_on_comma(s).len() >= 1,
    decreases s.len(),
{
    if s.len() > 0 {
        lemma_split_nonempty(s.drop_last());
    }
}

/// The pieces of `s` between commas.
pub fn split_commas(s: &str) -> (r: Vec<String>)
    ensures
        texts(r@) == split_on_comma(s@),
{
    let n = s.unicode_len();
    let mut pieces: Vec<String> = Vec::new();
    let mut current = String::new();
    let mut i: usize = 0;
    assert(s@.take(0) =~= Seq::<char>::empty());
    while i < n
        invariant
            n == s@.len(),
            0 <= i <= n,
            texts(pieces@).push(current@) == split_on_comma(s@.take(i as int)),
        decreases n - i,
    {
        let c = s.get_char(i);
        let ghost before = s@.take(i as int);
        let ghost after = s@.take(i + 1);
        assert(after.drop_last() =~= before);
        assert(after.last() == c);
        proof {
            lemma_split_nonempty(before);
        }
        if c == ',' {
            pieces.push(current);
            current = String::new();
            assert(texts(pieces@).push(current@) =~= split_on_comma(before).push(Seq::<char>::empty()));
        } else {
            let ghost old_current = current@;
            crate::text::push_char(&mut current, c);
            assert(texts(pieces@).push(current@) =~= split_on_comma(before).update(
                split_on_comma(before).len() - 1,
                old_current.push(c),
            ));
        }
        i = i + 1;
    }
    assert(s@.take(n as int) =~= s@);
    pieces.push(current);
    assert(texts(pieces@) =~= split_on_comma(s@));
    pieces
}

fn contains_text(xs: &Vec<String>, x: &String) -> (r: bool)
    ensures
        r == texts(xs@).contains(x@),
{
    let mut i: usize = 0;
    while i < xs.len()
        invariant
            0 <= i <= xs@.len(),
            forall|j: int| 0 <= j < i ==> xs@[j]@ != x@,
        decreases xs@.len() - i,
    {
        if xs[i] == *x {
            assert(texts(xs@)[i as int] == x@);
            return true;
        }
        i = i + 1;
    }
    assert forall|j: int| 0 <= j < texts(xs@).len() implies texts(xs@)[j] != x@ by {
        assert(texts(xs@)[j] == xs@[j]@);
    }
    false
}

/// The categories of a search: the distinct pieces of `c` between commas,
/// in order of first occurrence, at most three.
pub fn search_categories(c: &str) -> (r: Vec<String>)
    ensures
        texts(r@) == at_most(first_occurrences(split_on_comma(c@)), MAX_CATEGORIES as int),
{
    let pieces = split_commas(c);
    let mut kept: Vec<String> = Vec::new();
    let mut i: usize = 0;
    assert(texts(pieces@).take(0) =~= Seq::<Seq<char>>::empty());
    while i < pieces.len()
        invariant
            0 <= i <= pieces@.len(),
            texts(kept@) == first_occurrences(texts(pieces@).take(i as int)),
        decreases pieces@.len() - i,
    {
        let ghost before = texts(pieces@).take(i as int);
        let ghost after = texts(pieces@).take(i + 1);
        assert(after.drop_last() =~= before);
        assert(after.last() == pieces@[i as int]@);
        if !contains_text(&kept, &pieces[i]) {
            kept.push(pieces[i].clone());
            assert(texts(kept@) =~= first_occurrences(before).push(pieces@[i as int]@));
        }
        i = i + 1;
    }
    assert(texts(pieces@).take(pieces@.len() as int) =~= texts(pieces@));
    if kept.len() > MAX_CATEGORIES {
        kept.truncate(MAX_CATEGORIES);
        assert(texts(kept@) =~= at_most(first_occurrences(split_on_comma(c@)), MAX_CATEGORIES as int));
    }
    kept
}

/// The category buttons of the homepage: the first three pieces of `c`
/// between commas (none without `c`).
pub fn homepage_categories(c: Option<&str>) -> (r: Vec<String>)
    ensures
        match c {
            Some(c) => texts(r@) == at_most(split_on_comma(c@), MAX_CATEGORIES as int),
            None => r@.len() == 0,
        },
{
    match c {
        Some(c) => {
            let mut pieces = split_commas(c);
            if pieces.len() > MAX_CATEGORIES {
                pieces.truncate(MAX_CATEGORIES);
                assert(texts(pieces@) =~= at_most(split_on_comma(c@), MAX_CATEGORIES as int));
            }
            pieces
        },
        None => Vec::new(),
    }
}

/// A copy of a list of strings.
pub fn copy_strings(v: &Vec<String>) -> (r: Vec<String>)
    ensures
        r@ == v@,
{
    let mut r: Vec<String> = Vec::new();
    let mut i: usize = 0;
    while i < v.len()
        invariant
            0 <= i <= v@.len(),
            r@ == v@.take(i as int),
        decreases v@.len() - i,
    {
        r.push(v[i].clone());
        assert(r@ =~= v@.take(i + 1));
        i = i + 1;
    }
    assert(v@.take(v@.len() as int) =~= v@);
    r
}

/// Which listing of communities to fetch.
#[derive(Clone, Debug, PartialEq, Eq)]
pub enum CommunityQuery {
    /// All communities by weighted score.
    All,
    /// Communities whose name is similar to the given text.
    ByName(String),
    /// Communities in all the given categories.
    ByCategories(Vec<String>),
    /// Communities in all the given categories whose name is similar to the
    /// given text.
    ByCategoriesAndName(Vec<String>, String),
}

/// A community search to run.
#[derive(Clone, Debug, PartialEq, Eq)]
pub struct SearchPlan {
    pub offset: i64,
    /// The category filter, when one was given.
    pub categories: Option<Vec<String>>,
    pub query: CommunityQuery,
}

/// The offset of a search: the given one, else 0.
pub open spec fn search_offset(o: Option<i64>) -> i64 {
    match o {
        Some(offset) => offset,
        None => 0,
    }
}

/// Whether `cats` is the category filter read from `c`: none without `c`
/// or with an empty `c`, else the search categories of `c`.
pub open spec fn categories_of(c: Option<&str>, cats: Option<Vec<String>>) -> bool {
    match c {
        Some(c) if c@.len() != 0 => cats matches Some(v) && texts(v@) == at_most(
            first_occurrences(split_on_comma(c@)),
            MAX_CATEGORIES as int,
        ),
        _ => cats is None,
    }
}

/// Whether `query` is the listing chosen for the search text `q` and the
/// category filter `cats`: by name when there is non-empty text and no
/// filter; by categories with a filter and no (or empty) text; by both with
/// a filter and non-empty text; else all.
pub open spec fn query_of(q: Option<&str>, cats: Option<Vec<String>>, query: CommunityQuery) -> bool {
    match (q, cats) {
        (Some(q), None) => if q@.len() == 0 {
            query == CommunityQuery::All
        } else {
            query matches CommunityQuery::ByName(n) && n@ == q@
        },
        (None, Some(cs)) => query matches CommunityQuery::ByCategories(qc) && qc@ == cs@,
        (Some(q), Some(cs)) => if q@.len() == 0 {
            query matches CommunityQuery::ByCategories(qc) && qc@ == cs@
        } else {
            query matches CommunityQuery::ByCategoriesAndName(qc, n) && qc@ == cs@ && n@ == q@
        },
        (None, None) => query == CommunityQuery::All,
    }
}

/// Reads the parameters of a community search: the offset `o` (0 when
/// absent; a negative offset is answered with "no content"), the
/// categories `c` and the search text `q`.
pub fn plan_community_search(o: Option<i64>, c: Option<&str>, q: Option<&str>) -> (r: Result<
    SearchPlan,
    ApiResponse,
>)
    ensures
        search_offset(o) < 0 ==> r == Err::<SearchPlan, ApiResponse>(ApiResponse::NoContent),
        search_offset(o) >= 0 ==> (r matches Ok(plan) && plan.offset == search_offset(o)
            && categories_of(c, plan.categories) && query_of(q, plan.categories, plan.query)),
{
    let offset = match o {
        Some(offset) => offset,
        None => 0,
    };
    if offset < 0 {
        return Err(ApiResponse::NoContent);
    }
    let categories = match c {
        Some(c) => {
            if c.is_empty() {
                None
            } else {
                Some(search_categories(c))
            }
        },
        None => None,
    };
    let query = match (q, &categories) {
        (Some(q), None) => {
            if q.is_empty() {
                CommunityQuery::All
            } else {
                CommunityQuery::ByName(String::from_str(q))
            }
        },
        (None, Some(cs)) => CommunityQuery::ByCategories(copy_strings(cs)),
        (Some(q), Some(cs)) => {
            if q.is_empty() {
                CommunityQuery::ByCategories(copy_strings(cs))
            } else {
                CommunityQuery::ByCategoriesAndName(copy_strings(cs), String::from_str(q))
            }
        },
        (None, None) => CommunityQuery::All,
    };
    Ok(SearchPlan { offset, categories, query })
}

/// The template shown when a community search fails.
pub const SEARCH_ERROR_TEMPLATE: &'static str = "partials/components/community/search-error";

/// The message shown when a community search fails.
pub const SEARCH_ERROR_MESSAGE: &'static str = "We experienced an unexpected problem. Please hang tight.";

/// A community search, once the listing (whether it was fetched) and the
/// page count (none when there are no rows) came back: the page count to
/// show, 0 when there is none; if either call failed, status 500 with the
/// search-error template and its message.
pub fn search_page_count(listing_fetched: bool, page_count: DbResult<Option<i64>>) -> (r: Result<
    u64,
    RenderedResponse,
>)
    requires
        listing_fetched ==> (page_count matches DbResult::Value(Some(n)) ==> n >= 0),
    ensures
        (!listing_fetched || page_count is Failed) ==> (r matches Err(
            RenderedResponse::Render {
                status,
                template: Some(TemplateView::Page { name, title: None, message: Some(m) }),
                headers: None,
            },
        ) && status == INTERNAL_SERVER_ERROR && name == SEARCH_ERROR_TEMPLATE && m@
            == SEARCH_ERROR_MESSAGE@),
        listing_fetched ==> match page_count {
            DbResult::Value(Some(n)) => r == Ok::<u64, RenderedResponse>(n as u64),
            DbResult::Value(None) => r == Ok::<u64, RenderedResponse>(0),
            DbResult::Failed => true,
        },
{
    match page_count {
        DbResult::Value(count) => {
            if listing_fetched {
                return Ok(
                    match count {
                        Some(n) => n as u64,
                        None => 0,
                    },
                );
            }
        },
        DbResult::Failed => {},
    }
    Err(
        RenderedResponse::Render {
            status: INTERNAL_SERVER_ERROR,
            template: Some(
                TemplateView::Page {
                    name: SEARCH_ERROR_TEMPLATE,
                    title: None,
                    message: Some(String::from_str(SEARCH_ERROR_MESSAGE)),
                },
            ),
            headers: None,
        },
    )
}

/// No category occurs twice in `first_occurrences`, and every kept
/// category occurs in the input.
pub proof fn lemma_first_occurrences_distinct(xs: Seq<Seq<char>>)
    ensures
        forall|i: int, j: int|
            0 <= i < j < first_occurrences(xs).len() ==> first_occurrences(xs)[i]
                != first_occurrences(xs)[j],
        forall|i: int| 0 <= i < first_occurrences(xs).len() ==> xs.contains(
            #[trigger] first_occurrences(xs)[i],
        ),
    decreases xs.len(),
{
    if xs.len() > 0 {
        lemma_first_occurrences_distinct(xs.drop_last());
        let kept = first_occurrences(xs.drop_last());
        assert forall|i: int| 0 <= i < kept.len() implies xs.contains(#[trigger] kept[i]) by {
            let k = choose|k: int| 0 <= k < xs.drop_last().len() && xs.drop_last()[k] == kept[i];
            assert(xs[k] == kept[i]);
        }
        if !kept.contains(xs.last()) {
            assert(xs[xs.len() - 1] == xs.last());
        }
    }
}

/// A search filters by at most three categories, none of them twice.
pub proof fn lemma_search_categories_distinct(c: Seq<char>)
    ensures
        at_most(first_occurrences(split_on_comma(c)), MAX_CATEGORIES as int).len() <= MAX_CATEGORIES,
        forall|i: int, j: int|
            0 <= i < j < at_most(first_occurrences(split_on_comma(c)), MAX_CATEGORIES as int).len()
                ==> at_most(first_occurrences(split_on_comma(c)), MAX_CATEGORIES as int)[i]
                != at_most(first_occurrences(split_on_comma(c)), MAX_CATEGORIES as int)[j],
{
    lemma_first_occurrences_distinct(split_on_comma(c));
}

} // verus!
