//! The relationship expander: given the resolved candidates and the
//! selected mode, which related ids to fetch, in what order, and how the
//! fetched posts replace the candidates.
//!
//! Expansion is a pure function from a post and a mode to the ids it
//! contributes; the one fetch per id happens outside, and the fetched
//! posts stand in candidate order regardless of completion order.

use vstd::prelude::*;
use crate::common::PostMapMode;
use crate::post::Post;
use crate::post::same_record;

verus! {

/// The ids one candidate contributes under a mode: nothing for identity
/// (the candidate itself is kept, not re-fetched), its parent if it has
/// one, or all its children in order.
pub open spec fn spec_expansion_ids(p: Post, mode: PostMapMode) -> Seq<u64> {
    match mode {
        PostMapMode::Identity => seq![],
        PostMapMode::Parents => if p.parent_id is Some {
            seq![p.parent_id->Some_0]
        } else {
            seq![]
        },
        PostMapMode::Children => p.children@,
    }
}

/// The ids a whole candidate list contributes, candidate by candidate.
pub open spec fn spec_expansion_plan(posts: Seq<Post>, mode: PostMapMode) -> Seq<u64>
    decreases posts.len(),
{
    if posts.len() == 0 {
        seq![]
    } else {
        spec_expansion_ids(posts[0], mode) + spec_expansion_plan(posts.skip(1), mode)
    }
}

/// Lists the ids to fetch for a candidate list under a mode, in
/// candidate-then-relation order.
pub fn post_map_plan(mode: PostMapMode, posts: &Vec<Post>) -> (r: Vec<u64>)
    ensures
        r@ == spec_expansion_plan(posts@, mode),
    decreases posts@.len(),
{
    let mut r: Vec<u64> = Vec::new();
    let mut i: usize = 0;
    proof {
        assert(posts@.skip(0) =~= posts@);
        assert(Seq::<u64>::empty() + spec_expansion_plan(posts@, mode) =~= spec_expansion_plan(
            posts@,
            mode,
        ));
    }
    while i < posts.len()
        invariant
            0 <= i <= posts@.len(),
            r@ + spec_expansion_plan(posts@.skip(i as int), mode) == spec_expansion_plan(
                posts@,
                mode,
            ),
        decreases posts@.len() - i,
    {
        let ghost rest = posts@.skip(i as int);
        proof {
            assert(rest[0] == posts@[i as int]);
            assert(rest.skip(1) =~= posts@.skip(i as int + 1));
        }
        match mode {
            PostMapMode::Identity => {},
            PostMapMode::Parents => {
                if let Some(parent) = posts[i].parent_id {
                    r.push(parent);
                }
            },
            PostMapMode::Children => {
                let mut j: usize = 0;
                let ghost before = r@;
                while j < posts[i].children.len()
                    invariant
                        0 <= j <= posts@[i as int].children@.len(),
                        0 <= i < posts@.len(),
                        r@ == before + posts@[i as int].children@.take(j as int),
                    decreases posts@[i as int].children@.len() - j,
                {
                    r.push(posts[i].children[j]);
                    proof {
                        assert(posts@[i as int].children@.take(j as int + 1)
                            =~= posts@[i as int].children@.take(j as int).push(
                            posts@[i as int].children@[j as int],
                        ));
                    }
                    j += 1;
                }
                proof {
                    assert(posts@[i as int].children@.take(posts@[i as int].children@.len() as int)
                        =~= posts@[i as int].children@);
                }
            },
        }
        proof {
            assert(r@ + spec_expansion_plan(posts@.skip(i as int + 1), mode) =~= spec_expansion_plan(
                posts@,
                mode,
            ));
        }
        i += 1;
    }
    proof {
        assert(posts@.skip(posts@.len() as int) =~= Seq::<Post>::empty());
        assert(r@ =~= spec_expansion_plan(posts@, mode));
    }
    r
}

/// How many candidates have a parent.
pub open spec fn spec_count_with_parent(posts: Seq<Post>) -> nat
    decreases posts.len(),
{
    if posts.len() == 0 {
        0
    } else {
        (if posts[0].parent_id is Some {
            1nat
        } else {
            0nat
        }) + spec_count_with_parent(posts.skip(1))
    }
}

/// The sum of the children counts over all candidates.
pub open spec fn spec_children_total(posts: Seq<Post>) -> nat
    decreases posts.len(),
{
    if posts.len() == 0 {
        0
    } else {
        posts[0].children@.len() + spec_children_total(posts.skip(1))
    }
}

/// Under the parent mode the plan holds one id for each candidate with a
/// parent and none for the others: a candidate without a parent
/// contributes no entry.
pub proof fn lemma_parents_expansion(posts: Seq<Post>)
    ensures
        spec_expansion_plan(posts, PostMapMode::Parents).len() == spec_count_with_parent(posts),
    decreases posts.len(),
{
    if posts.len() > 0 {
        lemma_parents_expansion(posts.skip(1));
    }
}

/// Under the parent mode, a candidate with a parent contributes exactly
/// one entry, its parent id, standing right after the contributions of the
/// candidates before it.
pub proof fn lemma_parents_position(posts: Seq<Post>, i: int)
    requires
        0 <= i < posts.len(),
        posts[i].parent_id is Some,
    ensures
        spec_count_with_parent(posts.take(i)) < spec_expansion_plan(
            posts,
            PostMapMode::Parents,
        ).len(),
        spec_expansion_plan(posts, PostMapMode::Parents)[spec_count_with_parent(posts.take(i)) as int]
            == posts[i].parent_id->Some_0,
    decreases i,
{
    let plan = spec_expansion_plan(posts, PostMapMode::Parents);
    let ids0 = spec_expansion_ids(posts[0], PostMapMode::Parents);
    let tail = posts.skip(1);
    lemma_parents_expansion(posts);
    if i == 0 {
        assert(posts.take(0) =~= Seq::<Post>::empty());
        assert(plan[0] == ids0[0]);
    } else {
        assert(tail[i - 1] == posts[i]);
        lemma_parents_position(tail, i - 1);
        let k = spec_count_with_parent(tail.take(i - 1));
        let c0: int = if posts[0].parent_id is Some {
            1
        } else {
            0
        };
        assert(posts.take(i)[0] == posts[0]);
        assert(posts.take(i).skip(1) =~= tail.take(i - 1));
        assert(spec_count_with_parent(posts.take(i)) == c0 + k);
        assert(k >= 0);
        assert(ids0.len() == c0);
        let tail_plan = spec_expansion_plan(tail, PostMapMode::Parents);
        lemma_parents_expansion(tail);
        assert(k < tail_plan.len());
        assert(plan == ids0 + tail_plan);
        assert((ids0 + tail_plan)[c0 + k] == tail_plan[k as int]);
        assert(plan[c0 + k] == tail_plan[k as int]);
    }
}

/// Under the children mode, the plan's length is the sum of the children
/// counts over all candidates.
pub proof fn lemma_children_expansion_total(posts: Seq<Post>)
    ensures
        spec_expansion_plan(posts, PostMapMode::Children).len() == spec_children_total(posts),
    decreases posts.len(),
{
    if posts.len() > 0 {
        lemma_children_expansion_total(posts.skip(1));
    }
}

/// The first record with the given id in an unchanged remote state, if
/// any: what resolving that id returns.
pub open spec fn spec_lookup(store: Seq<Post>, id: u64) -> Option<Post>
    decreases store.len(),
{
    if store.len() == 0 {
        None
    } else if store[0].id == id {
        Some(store[0])
    } else {
        spec_lookup(store.skip(1), id)
    }
}

/// Resolves one id against a fixed store of records.
pub fn resolve_from_store(store: &Vec<Post>, id: u64) -> (r: Option<&Post>)
    ensures
        r is Some <==> spec_lookup(store@, id) is Some,
        r is Some ==> *r->Some_0 == spec_lookup(store@, id)->Some_0,
{
    let mut i: usize = 0;
    proof {
        assert(store@.skip(0) =~= store@);
    }
    while i < store.len()
        invariant
            0 <= i <= store@.len(),
            spec_lookup(store@.skip(i as int), id) == spec_lookup(store@, id),
        decreases store@.len() - i,
    {
        let ghost rest = store@.skip(i as int);
        proof {
            assert(rest[0] == store@[i as int]);
            assert(rest.skip(1) =~= store@.skip(i as int + 1));
        }
        if store[i].id == id {
            return Some(&store[i]);
        }
        i += 1;
    }
    proof {
        assert(store@.skip(store@.len() as int) =~= Seq::<Post>::empty());
    }
    None
}

/// Resolving the same post id twice against an unchanged remote state
/// yields structurally identical records: the result is a function of the
/// state and the id alone.
pub proof fn lemma_resolution_idempotent(
    store: Seq<Post>,
    id: u64,
    first: Option<Post>,
    second: Option<Post>,
)
    requires
        first == spec_lookup(store, id),
        second == spec_lookup(store, id),
    ensures
        first == second,
{
}

/// The posts the ids resolve to against a fixed store, in id order,
/// skipping ids no record carries.
pub open spec fn spec_resolve_all(store: Seq<Post>, ids: Seq<u64>) -> Seq<Post>
    decreases ids.len(),
{
    if ids.len() == 0 {
        seq![]
    } else {
        (match spec_lookup(store, ids[0]) {
            Some(p) => seq![p],
            None => seq![],
        }) + spec_resolve_all(store, ids.skip(1))
    }
}

/// Resolves a list of ids against a fixed store of records, in order,
/// skipping ids no record carries.
pub fn resolve_ids_from_store(store: &Vec<Post>, ids: &Vec<u64>) -> (r: Vec<Post>)
    ensures
        r@.len() == spec_resolve_all(store@, ids@).len(),
        forall|k: int|
            0 <= k < r@.len() ==> same_record(#[trigger] r@[k], spec_resolve_all(store@, ids@)[k]),
{
    let ghost resolved = spec_resolve_all(store@, ids@);
    let mut r: Vec<Post> = Vec::new();
    let mut i: usize = 0;
    proof {
        assert(ids@.skip(0) =~= ids@);
    }
    while i < ids.len()
        invariant
            0 <= i <= ids@.len(),
            resolved == spec_resolve_all(store@, ids@),
            r@.len() + spec_resolve_all(store@, ids@.skip(i as int)).len() == resolved.len(),
            forall|k: int| 0 <= k < r@.len() ==> same_record(#[trigger] r@[k], resolved[k]),
            spec_resolve_all(store@, ids@.skip(i as int)) == resolved.skip(r@.len() as int),
        decreases ids@.len() - i,
    {
        let ghost rest = ids@.skip(i as int);
        proof {
            assert(rest[0] == ids@[i as int]);
            assert(rest.skip(1) =~= ids@.skip(i as int + 1));
        }
        match resolve_from_store(store, ids[i]) {
            Some(p) => {
                let ghost before = r@;
                r.push(p.clone());
                proof {
                    assert(resolved.skip(before.len() as int)[0] == resolved[before.len() as int]);
                    assert(resolved.skip(before.len() as int).skip(1) =~= resolved.skip(
                        before.len() as int + 1,
                    ));
                }
            },
            None => {},
        }
        i += 1;
    }
    proof {
        assert(ids@.skip(ids@.len() as int) =~= Seq::<u64>::empty());
    }
    r
}

/// Maps the resolved candidates through the relationship expander against
/// a fixed store of records: identity passes the candidates through
/// unchanged; the parent and children modes replace them with the posts
/// the expansion plan's ids resolve to, in plan order.
pub fn post_map_from_store(store: &Vec<Post>, mode: PostMapMode, candidates: Vec<Post>) -> (r: Vec<
    Post,
>)
    ensures
        mode is Identity ==> r == candidates,
        !(mode is Identity) ==> r@.len() == spec_resolve_all(
            store@,
            spec_expansion_plan(candidates@, mode),
        ).len(),
        !(mode is Identity) ==> forall|k: int|
            0 <= k < r@.len() ==> same_record(
                #[trigger] r@[k],
                spec_resolve_all(store@, spec_expansion_plan(candidates@, mode))[k],
            ),
{
    match mode {
        PostMapMode::Identity => candidates,
        _ => {
            let plan = post_map_plan(mode, &candidates);
            resolve_ids_from_store(store, &plan)
        },
    }
}

} // verus!
