//! The reverse-image query source: the threshold decision over the scored
//! candidates a similarity search returns, the session-token rule, and the
//! direct-download strategy's naming.
//!
//! Similarity scores arrive in hundredths of a percent, so a threshold of
//! ninety percent reads 9000; the transport layer converts the service's
//! fractional scores. A candidate whose score the response lacks
//! invalidates the whole batch: that is a hard stop, not a per-candidate
//! skip.

use vstd::prelude::*;
use vstd::string::StringExecFns;
use crate::error::Error;
use crate::text::dec_nat;
use crate::text::u64_to_string;

verus! {

/// One scored candidate as the similarity service reported it: post id,
/// file extension and URL, and the similarity score in hundredths of a
/// percent, absent where the response carried none.
#[derive(Debug, PartialEq, Eq)]
pub struct RawCandidate {
    pub id: u64,
    pub file_ext: String,
    pub file_url: String,
    pub score_hundredths: Option<u32>,
}

/// A candidate that survived the threshold, ready for resolution or direct
/// download.
#[derive(Debug, PartialEq, Eq)]
pub struct ReverseSearchCandidate {
    pub id: u64,
    pub file_ext: String,
    pub file_url: String,
    pub score_hundredths: u32,
}

/// Whether every candidate of a batch carries a score.
pub open spec fn spec_candidates_valid(cands: Seq<RawCandidate>) -> bool {
    forall|i: int| 0 <= i < cands.len() ==> (#[trigger] cands[i].score_hundredths) is Some
}

/// Whether a candidate is kept: its score reaches the threshold. A score
/// exactly at the threshold is kept.
pub open spec fn spec_keeps(c: RawCandidate, threshold: u32) -> bool {
    c.score_hundredths is Some && c.score_hundredths->Some_0 >= threshold
}

/// The surviving form of one kept candidate.
pub open spec fn spec_candidate_of(c: RawCandidate) -> ReverseSearchCandidate {
    ReverseSearchCandidate {
        id: c.id,
        file_ext: c.file_ext,
        file_url: c.file_url,
        score_hundredths: c.score_hundredths->Some_0,
    }
}

/// The candidates that reach the threshold, in the order the service
/// returned them.
pub open spec fn spec_survivors(cands: Seq<RawCandidate>, threshold: u32) -> Seq<
    ReverseSearchCandidate,
>
    decreases cands.len(),
{
    if cands.len() == 0 {
        seq![]
    } else {
        let rest = spec_survivors(cands.skip(1), threshold);
        if spec_keeps(cands[0], threshold) {
            seq![spec_candidate_of(cands[0])] + rest
        } else {
            rest
        }
    }
}

/// Applies the similarity threshold to one batch of candidates: keeps
/// every candidate whose score is at least the threshold, in order, and
/// rejects the whole batch when any candidate lacks a score.
pub fn filter_candidates(cands: &Vec<RawCandidate>, threshold: u32) -> (r: Result<
    Vec<ReverseSearchCandidate>,
    Error,
>)
    ensures
        r is Ok <==> spec_candidates_valid(cands@),
        r is Err ==> r->Err_0 == Error::IqdbQueryError,
        r is Ok ==> r->Ok_0@ == spec_survivors(cands@, threshold),
{
    let mut out: Vec<ReverseSearchCandidate> = Vec::new();
    let mut i: usize = 0;
    proof {
        assert(cands@.skip(0) =~= cands@);
        assert(Seq::<ReverseSearchCandidate>::empty() + spec_survivors(cands@, threshold)
            =~= spec_survivors(cands@, threshold));
    }
    while i < cands.len()
        invariant
            0 <= i <= cands@.len(),
            forall|j: int| 0 <= j < i ==> (#[trigger] cands@[j].score_hundredths) is Some,
            out@ + spec_survivors(cands@.skip(i as int), threshold) == spec_survivors(
                cands@,
                threshold,
            ),
        decreases cands@.len() - i,
    {
        let ghost rest = cands@.skip(i as int);
        proof {
            assert(rest[0] == cands@[i as int]);
            assert(rest.skip(1) =~= cands@.skip(i as int + 1));
        }
        let c = &cands[i];
        match c.score_hundredths {
            Some(score) => {
                if score >= threshold {
                    out.push(
                        ReverseSearchCandidate {
                            id: c.id,
                            file_ext: c.file_ext.clone(),
                            file_url: c.file_url.clone(),
                            score_hundredths: score,
                        },
                    );
                    proof {
                        assert(out@.last() == spec_candidate_of(cands@[i as int]));
                        assert(out@ + spec_survivors(cands@.skip(i as int + 1), threshold)
                            =~= spec_survivors(cands@, threshold));
                    }
                }
            },
            None => {
                return Err(Error::IqdbQueryError);
            },
        }
        i += 1;
    }
    proof {
        assert(cands@.skip(cands@.len() as int) =~= Seq::<RawCandidate>::empty());
        assert(out@ =~= spec_survivors(cands@, threshold));
    }
    Ok(out)
}

/// A batch with a kept candidate and a discarded one keeps exactly the
/// candidate at the threshold and above it: the threshold boundary is
/// inclusive.
pub proof fn lemma_threshold_boundary(c: RawCandidate, threshold: u32)
    requires
        c.score_hundredths is Some,
    ensures
        c.score_hundredths->Some_0 == threshold ==> spec_keeps(c, threshold),
        c.score_hundredths->Some_0 < threshold ==> !spec_keeps(c, threshold),
{
}

/// The post ids of the surviving candidates, in order, for the resolved
/// strategy.
pub fn candidate_ids(results: &Vec<ReverseSearchCandidate>) -> (r: Vec<u64>)
    ensures
        r@.len() == results@.len(),
        forall|k: int| 0 <= k < r@.len() ==> r@[k] == results@[k].id,
{
    let mut r: Vec<u64> = Vec::new();
    let mut i: usize = 0;
    while i < results.len()
        invariant
            0 <= i <= results@.len(),
            r@.len() == i,
            forall|k: int| 0 <= k < i ==> r@[k] == results@[k].id,
        decreases results@.len() - i,
    {
        r.push(results[i].id);
        i += 1;
    }
    r
}

/// Requires both parts of the similarity session: the page's token and the
/// response cookie. Either missing means the session cannot be opened.
pub fn require_auth(token: Option<String>, cookie: Option<String>) -> (r: Result<
    (String, String),
    Error,
>)
    ensures
        r is Ok <==> token is Some && cookie is Some,
        r is Ok ==> r->Ok_0.0 == token->Some_0 && r->Ok_0.1 == cookie->Some_0,
        r is Err ==> r->Err_0 == Error::AuthTokenNotFound,
{
    match (token, cookie) {
        (Some(t), Some(c)) => Ok((t, c)),
        _ => Err(Error::AuthTokenNotFound),
    }
}

/// The file name the direct strategy downloads one candidate to: the post
/// id and the reported extension.
pub fn direct_file_name(c: &ReverseSearchCandidate) -> (r: String)
    ensures
        r@ == dec_nat(c.id as nat) + "."@ + c.file_ext@,
{
    let mut r = u64_to_string(c.id);
    r.append(".");
    r.append(c.file_ext.as_str());
    proof {
        reveal_strlit(".");
        assert(r@ =~= dec_nat(c.id as nat) + "."@ + c.file_ext@);
    }
    r
}

/// The extensions the direct strategy tries, in order: the reported one
/// when the service named it, else the known formats, stopping at the
/// first that downloads.
pub fn direct_extension_candidates(c: &ReverseSearchCandidate) -> (r: Vec<String>)
    ensures
        c.file_ext@.len() > 0 ==> r@.len() == 1 && r@[0]@ == c.file_ext@,
        c.file_ext@.len() == 0 ==> r@.len() == 5 && r@[0]@ == "jpg"@ && r@[1]@ == "png"@ && r@[2]@
            == "gif"@ && r@[3]@ == "swf"@ && r@[4]@ == "webm"@,
{
    let mut r: Vec<String> = Vec::new();
    if !c.file_ext.as_str().is_empty() {
        r.push(c.file_ext.clone());
    } else {
        r.push("jpg".to_owned());
        r.push("png".to_owned());
        r.push("gif".to_owned());
        r.push("swf".to_owned());
        r.push("webm".to_owned());
    }
    r
}

} // verus!
