//! The save action: the deterministic file name of each post, which posts
//! the batch touches at all, and the accounting that keeps one broken
//! download from hiding the rest of the batch.

use vstd::prelude::*;
use vstd::string::StringExecFns;
use crate::error::Error;
use crate::post::Post;
use crate::post::spec_extension;
use crate::text::dec_nat;
use crate::text::u64_to_string;

verus! {

/// One planned download: where the bytes come from and the file they go
/// to.
#[derive(Debug, PartialEq, Eq)]
pub struct SaveItem {
    pub url: String,
    pub file_name: String,
}

/// What the save action does with one materialized post: passes a deleted
/// post over, reports a missing file reference, or downloads to the
/// deterministic name.
#[derive(Debug, PartialEq, Eq)]
pub enum SaveDecision {
    Skip,
    Fail(Error),
    Save(SaveItem),
}

/// The deterministic name a post's file is saved under: inside a pool the
/// pool id, the 1-based sequence index and the post id; the post id alone
/// otherwise. The extension is the file's own.
pub open spec fn spec_save_name(p: Post, pool: Option<(u64, usize)>) -> Seq<char> {
    (match pool {
        Some((pool_id, index)) => dec_nat(pool_id as nat) + "-"@ + dec_nat(index as nat) + "_"@,
        None => Seq::<char>::empty(),
    }) + dec_nat(p.id as nat) + "."@ + spec_extension(p.file->Some_0.ext)
}

/// Builds the deterministic save name of one post with a file reference.
pub fn save_file_name(p: &Post, pool: Option<(u64, usize)>) -> (r: String)
    requires
        p.file is Some,
    ensures
        r@ == spec_save_name(*p, pool),
{
    proof {
        reveal_strlit("-");
        reveal_strlit("_");
        reveal_strlit(".");
    }
    let mut r = match pool {
        Some((pool_id, index)) => {
            let mut s = u64_to_string(pool_id);
            s.append("-");
            let idx_str = u64_to_string(index as u64);
            s.append(idx_str.as_str());
            s.append("_");
            s
        },
        None => String::new(),
    };
    let id_str = u64_to_string(p.id);
    r.append(id_str.as_str());
    r.append(".");
    let file = match &p.file {
        Some(f) => f,
        None => {
            proof {
                assert(false);
            }
            unreached()
        },
    };
    r.append(file.ext.extension());
    assert(r@ =~= spec_save_name(*p, pool));
    r
}

/// What the save action decides for one post: a deleted post is excluded
/// outright, a post without a file reference is a per-item failure, and
/// any other post is downloaded to its deterministic name.
pub fn save_decision(p: &Post, pool: Option<(u64, usize)>) -> (r: SaveDecision)
    ensures
        p.status is Deleted <==> r is Skip,
        (!(p.status is Deleted) && p.file is None) <==> r == SaveDecision::Fail(
            Error::MissingFileUrl,
        ),
        (!(p.status is Deleted) && p.file is Some) <==> r is Save,
        r is Save ==> r->Save_0.url == p.file->Some_0.url && r->Save_0.file_name@ == spec_save_name(
            *p,
            pool,
        ),
{
    if p.status.is_deleted() {
        SaveDecision::Skip
    } else {
        match &p.file {
            Some(f) => {
                let file_name = save_file_name(p, pool);
                SaveDecision::Save(SaveItem { url: f.url.clone(), file_name })
            },
            None => SaveDecision::Fail(Error::MissingFileUrl),
        }
    }
}

/// Plans the whole save batch: one decision per post, in list order, the
/// index 1-based. Every post gets a decision, so one post's failure never
/// touches the rest of the batch.
pub fn save_plan(posts: &Vec<Post>, pool_id: Option<u64>) -> (r: Vec<SaveDecision>)
    ensures
        r@.len() == posts@.len(),
        forall|k: int|
            0 <= k < r@.len() ==> ((#[trigger] r@[k]) is Skip <==> posts@[k].status is Deleted),
        forall|k: int|
            0 <= k < r@.len() ==> ((#[trigger] r@[k]) == SaveDecision::Fail(Error::MissingFileUrl)
                <==> (!(posts@[k].status is Deleted) && posts@[k].file is None)),
        forall|k: int|
            0 <= k < r@.len() ==> ((#[trigger] r@[k]) is Save <==> (!(posts@[k].status is Deleted)
                && posts@[k].file is Some)),
        forall|k: int|
            0 <= k < r@.len() && (#[trigger] r@[k]) is Save ==> r@[k]->Save_0.url
                == posts@[k].file->Some_0.url && r@[k]->Save_0.file_name@ == spec_save_name(
                posts@[k],
                (match pool_id {
                    Some(pid) => Some((pid, (k + 1) as usize)),
                    None => None,
                }),
            ),
{
    let mut r: Vec<SaveDecision> = Vec::new();
    let mut i: usize = 0;
    let total = posts.len();
    assert(posts@.len() == total && total <= usize::MAX);
    while i < posts.len()
        invariant
            0 <= i <= posts@.len(),
            posts@.len() <= usize::MAX,
            r@.len() == i,
            forall|k: int|
                0 <= k < i ==> ((#[trigger] r@[k]) is Skip <==> posts@[k].status is Deleted),
            forall|k: int|
                0 <= k < i ==> ((#[trigger] r@[k]) == SaveDecision::Fail(Error::MissingFileUrl)
                    <==> (!(posts@[k].status is Deleted) && posts@[k].file is None)),
            forall|k: int|
                0 <= k < i ==> ((#[trigger] r@[k]) is Save <==> (!(posts@[k].status is Deleted)
                    && posts@[k].file is Some)),
            forall|k: int|
                0 <= k < i && (#[trigger] r@[k]) is Save ==> r@[k]->Save_0.url
                    == posts@[k].file->Some_0.url && r@[k]->Save_0.file_name@ == spec_save_name(
                    posts@[k],
                    (match pool_id {
                        Some(pid) => Some((pid, (k + 1) as usize)),
                        None => None,
                    }),
                ),
        decreases posts@.len() - i,
    {
        let pool = match pool_id {
            Some(pid) => Some((pid, i + 1)),
            None => None,
        };
        let d = save_decision(&posts[i], pool);
        r.push(d);
        i += 1;
    }
    r
}

/// How many outcomes of a finished batch succeeded.
pub open spec fn spec_count_ok(outcomes: Seq<Result<u64, Error>>) -> nat
    decreases outcomes.len(),
{
    if outcomes.len() == 0 {
        0
    } else {
        (if outcomes[0] is Ok {
            1nat
        } else {
            0nat
        }) + spec_count_ok(outcomes.skip(1))
    }
}

/// Counts a finished batch's outcomes: how many posts were written and how
/// many failed. Every outcome is counted, and the two counts sum to the
/// batch size: a failure is reported, never silently dropped, and never
/// stops the count of the rest.
pub fn count_outcomes(outcomes: &Vec<Result<u64, Error>>) -> (r: (usize, usize))
    ensures
        r.0 == spec_count_ok(outcomes@),
        r.0 + r.1 == outcomes@.len(),
{
    let mut ok: usize = 0;
    let mut failed: usize = 0;
    let mut i: usize = 0;
    proof {
        assert(outcomes@.skip(0) =~= outcomes@);
    }
    while i < outcomes.len()
        invariant
            0 <= i <= outcomes@.len(),
            ok + failed == i,
            ok + spec_count_ok(outcomes@.skip(i as int)) == spec_count_ok(outcomes@),
        decreases outcomes@.len() - i,
    {
        let ghost rest = outcomes@.skip(i as int);
        proof {
            assert(rest[0] == outcomes@[i as int]);
            assert(rest.skip(1) =~= outcomes@.skip(i as int + 1));
        }
        match &outcomes[i] {
            Ok(_) => {
                ok += 1;
            },
            Err(_) => {
                failed += 1;
            },
        }
        i += 1;
    }
    proof {
        assert(outcomes@.skip(outcomes@.len() as int) =~= Seq::<Result<u64, Error>>::empty());
    }
    (ok, failed)
}

} // verus!
