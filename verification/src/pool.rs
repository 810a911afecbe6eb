//! The pool listing query source: the not-found rule, page URLs, and the
//! page-counter pagination that concatenates the pool's ordered member
//! list until a page comes back empty.

use vstd::prelude::*;
use vstd::string::StringExecFns;
use crate::error::Error;
use crate::text::dec_nat;
use crate::text::u64_to_string;

verus! {

/// Requires that a pool lookup found a pool: its ordered member ids, or
/// `PoolNotFound` when the id resolved to nothing.
pub fn require_pool(found: Option<Vec<u64>>) -> (r: Result<Vec<u64>, Error>)
    ensures
        r is Ok <==> found is Some,
        r is Ok ==> r->Ok_0 == found->Some_0,
        r is Err ==> r->Err_0 == Error::PoolNotFound,
{
    match found {
        Some(ids) => Ok(ids),
        None => Err(Error::PoolNotFound),
    }
}

/// The URL of one pool listing page.
pub open spec fn spec_pool_url(pool_id: u64, page: usize) -> Seq<char> {
    "https://e621.net/pool/show.json?id="@ + dec_nat(pool_id as nat) + "&page="@ + dec_nat(
        page as nat,
    )
}

/// Builds the URL of one pool listing page.
pub fn pool_url(pool_id: u64, page: usize) -> (r: String)
    ensures
        r@ == spec_pool_url(pool_id, page),
{
    let mut r = "https://e621.net/pool/show.json?id=".to_owned();
    let id_str = u64_to_string(pool_id);
    r.append(id_str.as_str());
    r.append("&page=");
    let page_str = u64_to_string(page as u64);
    r.append(page_str.as_str());
    assert(r@ =~= spec_pool_url(pool_id, page));
    r
}

/// The smaller of two lengths.
pub open spec fn spec_min(a: int, b: int) -> int {
    if a <= b {
        a
    } else {
        b
    }
}

/// The slice of the ordered member list one page carries: pages are
/// 1-based and hold `page_size` ids each, the last one fewer, any page
/// past the end none.
pub open spec fn spec_pool_page(members: Seq<u64>, page: usize, page_size: usize) -> Seq<u64> {
    let start = spec_min((page - 1) * page_size, members.len() as int);
    let end = start + spec_min(page_size as int, members.len() - start);
    members.subrange(start, end)
}

/// Answers one pool page request from the ordered member list, as the
/// remote service would.
pub fn pool_page_from_members(members: &Vec<u64>, page: usize, page_size: usize) -> (r: Vec<u64>)
    requires
        page >= 1,
        page_size >= 1,
    ensures
        r@ == spec_pool_page(members@, page, page_size),
{
    let len = members.len();
    let start = match (page - 1).checked_mul(page_size) {
        Some(v) => {
            if v < len {
                v
            } else {
                len
            }
        },
        None => len,
    };
    let take = if page_size < len - start {
        page_size
    } else {
        len - start
    };
    let end = start + take;
    let mut r: Vec<u64> = Vec::new();
    let mut i: usize = start;
    while i < end
        invariant
            start <= i <= end <= members@.len(),
            r@.len() == i - start,
            forall|j: int| 0 <= j < r@.len() ==> r@[j] == members@[start + j],
        decreases end - i,
    {
        r.push(members[i]);
        i += 1;
    }
    proof {
        assert(r@ =~= spec_pool_page(members@, page, page_size));
    }
    r
}

/// Runs one whole pool listing against the ordered member list, page by
/// page until a page comes back empty: the result is the full member list,
/// in order.
pub fn collect_pool(members: &Vec<u64>, page_size: usize) -> (r: Vec<u64>)
    requires
        page_size >= 1,
        members@.len() < usize::MAX,
    ensures
        r@ == members@,
{
    let mut out: Vec<u64> = Vec::new();
    let mut page: usize = 1;
    proof {
        assert(out@ =~= members@.take(0));
    }
    loop
        invariant
            page_size >= 1,
            members@.len() < usize::MAX,
            1 <= page,
            page - 1 <= out@.len(),
            out@.len() as int == spec_min((page - 1) * page_size, members@.len() as int),
            out@ == members@.take(out@.len() as int),
        ensures
            out@.len() == members@.len(),
            out@ == members@.take(out@.len() as int),
        decreases members@.len() - out@.len() + 1,
    {
        let mut batch = pool_page_from_members(members, page, page_size);
        if batch.len() == 0 {
            proof {
                assert(out@.len() == members@.len());
            }
            break ;
        }
        let ghost before = out@;
        out.append(&mut batch);
        proof {
            assert(page * page_size == (page - 1) * page_size + page_size) by (nonlinear_arith);
            assert(out@.len() as int == spec_min(page * page_size, members@.len() as int));
            assert(out@ =~= members@.take(out@.len() as int));
        }
        page += 1;
    }
    proof {
        assert(out@ =~= members@);
    }
    out
}

} // verus!
