//! The tag-search query source: ordering detection, the hard per-page cap
//! on ordered queries, request URLs, and cursor-based pagination.
//!
//! The cursor is an explicit immutable value threaded through successive
//! page requests: the caller asks for the next request, performs it, and
//! hands the page back. Posts are listed newest first, so the cursor (the
//! lowest id seen so far) decreases strictly, no result is requested
//! twice, and an empty batch signals exhaustion.

use vstd::prelude::*;
use vstd::string::StringExecFns;
use crate::error::Error;
use crate::text::dec_nat;
use crate::text::join_all;
use crate::text::spec_join;
use crate::text::str_starts_with;
use crate::text::u64_to_string;

verus! {

/// The most results one request may ask for, and the most an ordered query
/// can return at all.
pub const LIST_HARD_LIMIT: usize = 320;

/// Whether one tag token requests an explicit ordering.
pub open spec fn spec_has_order_prefix(s: Seq<char>) -> bool {
    s.len() >= "order:"@.len() && s.subrange(0, "order:"@.len() as int) == "order:"@
}

/// Whether a query is ordered: some token requests an explicit ordering.
pub open spec fn spec_is_ordered(tags: Seq<Seq<char>>) -> bool {
    exists|i: int| 0 <= i < tags.len() && spec_has_order_prefix(#[trigger] tags[i])
}

/// Whether some tag token requests an explicit ordering.
pub fn is_ordered_query(tags: &Vec<String>) -> (r: bool)
    ensures
        r == spec_is_ordered(tags.deep_view()),
{
    let mut i: usize = 0;
    while i < tags.len()
        invariant
            0 <= i <= tags.len(),
            forall|j: int| 0 <= j < i ==> !spec_has_order_prefix(#[trigger] tags.deep_view()[j]),
        decreases tags.len() - i,
    {
        if str_starts_with(tags[i].as_str(), "order:") {
            assert(spec_has_order_prefix(tags.deep_view()[i as int]));
            return true;
        }
        assert(!spec_has_order_prefix(tags.deep_view()[i as int]));
        i += 1;
    }
    false
}

/// One page request: how many results to ask for, and the exclusive
/// "before id" bound, absent on the first request.
#[derive(Debug, Clone, Copy, PartialEq, Eq, Structural)]
pub struct PageRequest {
    pub batch: usize,
    pub before_id: Option<u64>,
}

/// The pagination state of one tag search, threaded through successive
/// page requests.
#[derive(Debug, Clone, Copy, PartialEq, Eq, Structural)]
pub struct SearchCursor {
    /// Whether the query is ordered; an ordered query is answered by one
    /// request.
    pub ordered: bool,
    /// The caller's result-count limit.
    pub limit: usize,
    /// How many results were accepted so far.
    pub count: usize,
    /// The lowest id seen so far, once a result arrived.
    pub lowest_id: Option<u64>,
    /// Whether the search is over: the one ordered page arrived, or a
    /// batch came back empty.
    pub finished: bool,
}

/// The lowest of a prior bound and a page of ids.
pub open spec fn spec_min_after(cur: Option<u64>, page: Seq<u64>) -> Option<u64>
    decreases page.len(),
{
    if page.len() == 0 {
        cur
    } else {
        let first = page[0];
        let lower = if cur is Some && cur->Some_0 <= first {
            cur
        } else {
            Some(first)
        };
        spec_min_after(lower, page.skip(1))
    }
}

impl SearchCursor {
    /// Whether no further request is to be made.
    pub open spec fn spec_done(self) -> bool {
        self.finished || (!self.ordered && self.count >= self.limit)
    }

    /// Starts a tag search. An ordered query above the hard cap fails with
    /// `AboveLimit` here, before any request is made.
    pub fn start(tags: &Vec<String>, limit: usize) -> (r: Result<SearchCursor, Error>)
        ensures
            r is Err <==> spec_is_ordered(tags.deep_view()) && limit > LIST_HARD_LIMIT,
            r is Err ==> r->Err_0 == Error::AboveLimit(limit, LIST_HARD_LIMIT as usize),
            r is Ok ==> r->Ok_0 == (SearchCursor {
                ordered: spec_is_ordered(tags.deep_view()),
                limit,
                count: 0,
                lowest_id: None,
                finished: false,
            }),
    {
        let ordered = is_ordered_query(tags);
        if ordered && limit > LIST_HARD_LIMIT {
            Err(Error::AboveLimit(limit, LIST_HARD_LIMIT))
        } else {
            Ok(SearchCursor { ordered, limit, count: 0, lowest_id: None, finished: false })
        }
    }

    /// The next request to perform, or `None` when the search is done: the
    /// accumulated count reached the limit, a batch came back empty, or the
    /// single page of an ordered query already arrived. An unordered
    /// request asks for what is still missing, at most the hard cap, below
    /// the lowest id seen.
    pub fn next_request(&self) -> (r: Option<PageRequest>)
        ensures
            r is Some <==> !self.spec_done(),
            self.ordered && r is Some ==> r->Some_0 == (PageRequest {
                batch: self.limit,
                before_id: None::<u64>,
            }),
            !self.ordered && r is Some ==> r->Some_0 == (PageRequest {
                batch: (if self.limit - self.count < LIST_HARD_LIMIT {
                    (self.limit - self.count) as usize
                } else {
                    LIST_HARD_LIMIT as usize
                }),
                before_id: self.lowest_id,
            }),
    {
        if self.finished {
            None
        } else if self.ordered {
            Some(PageRequest { batch: self.limit, before_id: None })
        } else if self.count >= self.limit {
            None
        } else {
            let left = self.limit - self.count;
            let batch = if left < LIST_HARD_LIMIT {
                left
            } else {
                LIST_HARD_LIMIT
            };
            Some(PageRequest { batch, before_id: self.lowest_id })
        }
    }

    /// Accepts the ids of one returned batch: the count grows by the batch,
    /// the cursor drops to the lowest id seen, and an empty batch (or the
    /// single ordered page) finishes the search.
    pub fn accept_page(&mut self, page: &Vec<u64>)
        requires
            !old(self).spec_done(),
            old(self).count + page@.len() <= usize::MAX,
        ensures
            final(self).ordered == old(self).ordered,
            final(self).limit == old(self).limit,
            final(self).count == old(self).count + page@.len(),
            final(self).lowest_id == spec_min_after(old(self).lowest_id, page@),
            final(self).finished == (old(self).ordered || page@.len() == 0),
    {
        let mut i: usize = 0;
        let mut lowest = self.lowest_id;
        let ghost start_lowest = self.lowest_id;
        proof {
            assert(page@.skip(0) =~= page@);
        }
        while i < page.len()
            invariant
                0 <= i <= page.len(),
                spec_min_after(lowest, page@.skip(i as int)) == spec_min_after(
                    start_lowest,
                    page@,
                ),
            decreases page.len() - i,
        {
            let ghost rest = page@.skip(i as int);
            proof {
                assert(rest[0] == page@[i as int]);
                assert(rest.skip(1) =~= page@.skip(i as int + 1));
            }
            let id = page[i];
            lowest = match lowest {
                Some(cur) => {
                    if cur <= id {
                        Some(cur)
                    } else {
                        Some(id)
                    }
                },
                None => Some(id),
            };
            i += 1;
        }
        proof {
            assert(page@.skip(page@.len() as int) =~= Seq::<u64>::empty());
            assert(spec_min_after(lowest, Seq::<u64>::empty()) == lowest);
        }
        self.lowest_id = lowest;
        self.count = self.count + page.len();
        self.finished = self.ordered || page.len() == 0;
    }
}

/// Ids listed newest first: strictly descending.
pub open spec fn sorted_strict_desc(s: Seq<u64>) -> bool {
    forall|i: int, j: int| 0 <= i < j < s.len() ==> s[i] > s[j]
}

/// The least index whose id lies below the bound; the length if none does.
pub open spec fn first_below(s: Seq<u64>, bound: u64) -> int
    decreases s.len(),
{
    if s.len() == 0 {
        0
    } else if s[0] < bound {
        0
    } else {
        1 + first_below(s.skip(1), bound)
    }
}

/// The page a well-behaved server answers from a fixed store of ids: the
/// ids below the bound (all of them when no bound is given), in store
/// order, at most `batch` of them.
pub open spec fn spec_page(store: Seq<u64>, before: Option<u64>, batch: int) -> Seq<u64> {
    let rest = if before is Some {
        store.skip(first_below(store, before->Some_0))
    } else {
        store
    };
    if batch <= rest.len() {
        rest.take(batch)
    } else {
        rest
    }
}

/// The index at which every earlier id is at least the bound and the id
/// there (if any) is below it is exactly `first_below`.
proof fn lemma_first_below_at(s: Seq<u64>, bound: u64, k: int)
    requires
        0 <= k <= s.len(),
        forall|j: int| 0 <= j < k ==> s[j] >= bound,
        k < s.len() ==> s[k] < bound,
    ensures
        first_below(s, bound) == k,
    decreases s.len(),
{
    if s.len() == 0 {
    } else if s[0] < bound {
        assert(k == 0);
    } else {
        assert(k >= 1);
        let t = s.skip(1);
        assert(forall|j: int| 0 <= j < k - 1 ==> t[j] == s[j + 1] && s[j + 1] >= bound);
        assert(k - 1 < t.len() ==> t[k - 1] == s[k] && s[k] < bound);
        lemma_first_below_at(t, bound, k - 1);
    }
}

/// Answers one page request from a fixed store of ids, as the remote
/// service would: the ids strictly below the cursor, in order, at most one
/// batch of them.
pub fn page_from_store(store: &Vec<u64>, req: PageRequest) -> (r: Vec<u64>)
    ensures
        r@ == spec_page(store@, req.before_id, req.batch as int),
{
    let mut start: usize = 0;
    if let Some(bound) = req.before_id {
        while start < store.len() && store[start] >= bound
            invariant
                0 <= start <= store@.len(),
                forall|j: int| 0 <= j < start ==> store@[j] >= bound,
            decreases store@.len() - start,
        {
            start += 1;
        }
        proof {
            lemma_first_below_at(store@, bound, start as int);
        }
    }
    let ghost rest = if req.before_id is Some {
        store@.skip(first_below(store@, req.before_id->Some_0))
    } else {
        store@
    };
    proof {
        assert(rest =~= store@.skip(start as int));
    }
    let n = if req.batch < store.len() - start {
        req.batch
    } else {
        store.len() - start
    };
    let mut r: Vec<u64> = Vec::new();
    let mut i: usize = 0;
    while i < n
        invariant
            0 <= i <= n,
            start + n <= store@.len(),
            store@.len() <= usize::MAX,
            r@.len() == i,
            forall|j: int| 0 <= j < i ==> r@[j] == store@[start + j],
        decreases n - i,
    {
        r.push(store[start + i]);
        i += 1;
    }
    proof {
        if req.batch as int <= rest.len() {
            assert(r@ =~= rest.take(req.batch as int));
        } else {
            assert(r@ =~= rest);
        }
    }
    r
}

/// Folding a page of strictly descending ids, all below the prior bound,
/// lands on the page's last id.
proof fn lemma_min_after_desc(cur: Option<u64>, page: Seq<u64>)
    requires
        sorted_strict_desc(page),
        cur is Some ==> forall|k: int| 0 <= k < page.len() ==> #[trigger] page[k] < cur->Some_0,
    ensures
        spec_min_after(cur, page) == (if page.len() == 0 {
            cur
        } else {
            Some(page.last())
        }),
    decreases page.len(),
{
    if page.len() > 0 {
        let first = page[0];
        let t = page.skip(1);
        assert(forall|i: int, j: int|
            0 <= i < j < t.len() ==> #[trigger] t[i] == page[i + 1] && #[trigger] t[j] == page[j
                + 1] && page[i + 1] > page[j + 1]);
        assert(forall|k: int| 0 <= k < t.len() ==> t[k] == page[k + 1] && page[k + 1] < first);
        lemma_min_after_desc(Some(first), t);
        if t.len() > 0 {
            assert(t.last() == page.last());
        }
    }
}

/// Runs one whole unordered tag search against a fixed store of candidate
/// ids, the way the cursor paginates it: the result is the first
/// `min(limit, total)` ids, newest first, and no id appears twice.
pub fn collect_unordered(store: &Vec<u64>, limit: usize) -> (r: Vec<u64>)
    requires
        sorted_strict_desc(store@),
    ensures
        r@.len() == (if limit as int <= store@.len() {
            limit as int
        } else {
            store@.len() as int
        }),
        r@ == store@.take(r@.len() as int),
        forall|i: int, j: int| 0 <= i < j < r@.len() ==> r@[i] != r@[j],
{
    let mut cursor = SearchCursor {
        ordered: false,
        limit,
        count: 0,
        lowest_id: None,
        finished: false,
    };
    let mut out: Vec<u64> = Vec::new();
    proof {
        assert(out@ =~= store@.take(0));
    }
    loop
        invariant
            sorted_strict_desc(store@),
            !cursor.ordered,
            cursor.limit == limit,
            cursor.count <= limit,
            cursor.count as int <= store@.len(),
            out@.len() == cursor.count,
            out@ == store@.take(cursor.count as int),
            cursor.lowest_id == (if cursor.count == 0 {
                None::<u64>
            } else {
                Some(store@[cursor.count - 1])
            }),
            cursor.finished ==> cursor.count as int == store@.len(),
        ensures
            cursor.spec_done(),
            cursor.count <= limit,
            cursor.count as int <= store@.len(),
            out@.len() == cursor.count,
            out@ == store@.take(cursor.count as int),
            cursor.finished ==> cursor.count as int == store@.len(),
            cursor.count < limit ==> cursor.finished,
        decreases limit - cursor.count + (if cursor.finished {
            0int
        } else {
            1int
        }),
    {
        let req = match cursor.next_request() {
            Some(req) => req,
            None => {
                break ;
            },
        };
        let ghost pre = cursor;
        let page = page_from_store(store, req);
        proof {
            if pre.count > 0 {
                assert(forall|j: int|
                    0 <= j < pre.count ==> #[trigger] store@[j] >= store@[pre.count - 1]) by {
                    assert(forall|j: int|
                        0 <= j < pre.count - 1 ==> #[trigger] store@[j] > store@[pre.count - 1]);
                };
                lemma_first_below_at(store@, store@[pre.count - 1], pre.count as int);
            }
            assert(page@ =~= store@.skip(pre.count as int).take(page@.len() as int));
            assert(sorted_strict_desc(page@)) by {
                assert(forall|i: int, j: int|
                    0 <= i < j < page@.len() ==> page@[i] == store@[pre.count + i] && page@[j]
                        == store@[pre.count + j] && store@[pre.count + i] > store@[pre.count + j]);
            };
            if pre.lowest_id is Some {
                assert(forall|k: int|
                    0 <= k < page@.len() ==> #[trigger] page@[k] == store@[pre.count + k]
                        && store@[pre.count + k] < store@[pre.count - 1]);
            }
            lemma_min_after_desc(pre.lowest_id, page@);
        }
        cursor.accept_page(&page);
        let mut page = page;
        out.append(&mut page);
        proof {
            assert(out@ =~= store@.take(cursor.count as int));
            if cursor.count > 0 {
                assert(cursor.lowest_id == Some(store@[cursor.count - 1]));
            }
        }
    }
    proof {
        assert(forall|i: int, j: int|
            0 <= i < j < out@.len() ==> out@[i] == store@[i] && out@[j] == store@[j] && store@[i]
                != store@[j]);
    }
    out
}

/// What percent-encoding a query string returns; a function of the
/// characters alone.
pub uninterp spec fn url_encoded(s: Seq<char>) -> Seq<char>;

/// A character that percent-encoding passes through unchanged.
pub open spec fn is_unreserved_char(c: char) -> bool {
    ||| '0' as int <= c as int <= '9' as int
    ||| 'A' as int <= c as int <= 'Z' as int
    ||| 'a' as int <= c as int <= 'z' as int
    ||| c == '-'
    ||| c == '.'
    ||| c == '_'
    ||| c == '~'
}

/// Whether every character of `s` passes through percent-encoding
/// unchanged.
pub open spec fn all_unreserved(s: Seq<char>) -> bool {
    forall|i: int| 0 <= i < s.len() ==> is_unreserved_char(#[trigger] s[i])
}

/// Relies on urlencoding::encode: percent-encodes every byte except ASCII
/// alphanumerics and `-`, `_`, `.`, `~`, so the result depends on the
/// characters alone and a string of unreserved characters comes back
/// unchanged.
#[verifier::external_body]
fn url_encode(s: &str) -> (r: String)
    ensures
        r@ == url_encoded(s@),
        all_unreserved(s@) ==> r@ == s@,
{
    urlencoding::encode(s).into_owned()
}

/// The URL of one tag-search page request.
pub open spec fn spec_search_url(tags: Seq<Seq<char>>, batch: int, before_id: Option<u64>) -> Seq<
    char,
> {
    "https://e621.net/post/index.json?limit="@ + dec_nat(batch as nat) + "&tags="@ + url_encoded(
        spec_join(tags, " "@),
    ) + (if before_id is Some {
        "&before_id="@ + dec_nat(before_id->Some_0 as nat)
    } else {
        Seq::<char>::empty()
    })
}

/// Builds the URL of one tag-search page request: the batch size, the
/// percent-encoded space-joined tags, and the exclusive "before id" cursor
/// when one is set.
pub fn search_url(tags: &Vec<String>, req: PageRequest) -> (r: String)
    ensures
        r@ == spec_search_url(tags.deep_view(), req.batch as int, req.before_id),
{
    let query = join_all(tags, " ");
    let encoded = url_encode(query.as_str());
    let mut r = "https://e621.net/post/index.json?limit=".to_owned();
    let batch_str = u64_to_string(req.batch as u64);
    r.append(batch_str.as_str());
    r.append("&tags=");
    r.append(encoded.as_str());
    if let Some(id) = req.before_id {
        r.append("&before_id=");
        let id_str = u64_to_string(id);
        r.append(id_str.as_str());
    }
    assert(r@ =~= spec_search_url(tags.deep_view(), req.batch as int, req.before_id));
    r
}

/// The URL that resolves one post by id.
pub open spec fn spec_post_url(id: u64) -> Seq<char> {
    "https://e621.net/post/show.json?id="@ + dec_nat(id as nat)
}

/// Builds the URL that resolves one post by id.
pub fn post_url(id: u64) -> (r: String)
    ensures
        r@ == spec_post_url(id),
{
    let mut r = "https://e621.net/post/show.json?id=".to_owned();
    let id_str = u64_to_string(id);
    r.append(id_str.as_str());
    assert(r@ =~= spec_post_url(id));
    r
}

} // verus!
