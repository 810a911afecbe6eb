//! The normalized in-memory representation of a post, and its construction
//! from the plain fields of one API response record.
//!
//! A record arrives as optional plain values (the transport layer pulls
//! them out of the response body); `Post::from_raw` checks them and builds
//! the immutable `Post`, rejecting a malformed record with a
//! `Serialization` error.

use vstd::prelude::*;
use crate::error::Error;
use crate::text::digits_val;
use crate::text::is_u64_numeral;
use crate::text::numeral_digits;
use crate::text::parse_u64;
use crate::text::spec_split_commas;
use crate::text::spec_split_ws;
use crate::text::split_commas;
use crate::text::split_whitespace_tokens;
use crate::text::str_eq;

verus! {

/// A post's deletion status.
#[derive(Debug, PartialEq, Eq)]
pub enum PostStatus {
    Active,
    Flagged,
    Pending,
    /// Deleted, with the reason given by the server.
    Deleted(String),
}

impl PostStatus {
    /// Whether the post was deleted. A deleted post has no guaranteed file
    /// reference and is excluded from every download action.
    pub fn is_deleted(&self) -> (r: bool)
        ensures
            r == (self is Deleted),
    {
        match self {
            PostStatus::Deleted(_) => true,
            _ => false,
        }
    }
}

/// A post's content rating.
#[derive(Debug, Clone, Copy, PartialEq, Eq, Structural)]
pub enum PostRating {
    Safe,
    Questionnable,
    Explicit,
}

impl PostRating {
    /// The rating's display name.
    pub fn name(&self) -> (r: &'static str)
        ensures
            r@ == spec_rating_name(*self),
    {
        proof {
            reveal_strlit("safe");
            reveal_strlit("questionable");
            reveal_strlit("explicit");
        }
        match self {
            PostRating::Safe => "safe",
            PostRating::Questionnable => "questionable",
            PostRating::Explicit => "explicit",
        }
    }
}

/// The display name of a rating.
pub open spec fn spec_rating_name(r: PostRating) -> Seq<char> {
    match r {
        PostRating::Safe => "safe"@,
        PostRating::Questionnable => "questionable"@,
        PostRating::Explicit => "explicit"@,
    }
}

/// The format of a post's primary file.
#[derive(Debug, Clone, Copy, PartialEq, Eq, Structural)]
pub enum PostFormat {
    JPG,
    PNG,
    GIF,
    SWF,
    WEBM,
}

/// The lowercase file extension of a format, as used in file names.
pub open spec fn spec_extension(f: PostFormat) -> Seq<char> {
    match f {
        PostFormat::JPG => "jpg"@,
        PostFormat::PNG => "png"@,
        PostFormat::GIF => "gif"@,
        PostFormat::SWF => "swf"@,
        PostFormat::WEBM => "webm"@,
    }
}

/// The uppercase display name of a format, as shown in the verbose block.
pub open spec fn spec_format_name(f: PostFormat) -> Seq<char> {
    match f {
        PostFormat::JPG => "JPEG"@,
        PostFormat::PNG => "PNG"@,
        PostFormat::GIF => "GIF"@,
        PostFormat::SWF => "SWF"@,
        PostFormat::WEBM => "WEBM"@,
    }
}

/// The format named by a record's extension field, if any.
pub open spec fn spec_format_of(s: Seq<char>) -> Option<PostFormat> {
    if s == "jpg"@ {
        Some(PostFormat::JPG)
    } else if s == "png"@ {
        Some(PostFormat::PNG)
    } else if s == "gif"@ {
        Some(PostFormat::GIF)
    } else if s == "swf"@ {
        Some(PostFormat::SWF)
    } else if s == "webm"@ {
        Some(PostFormat::WEBM)
    } else {
        None
    }
}

impl PostFormat {
    /// The lowercase file extension, as used in file names.
    pub fn extension(&self) -> (r: &'static str)
        ensures
            r@ == spec_extension(*self),
    {
        proof {
            reveal_strlit("jpg");
            reveal_strlit("png");
            reveal_strlit("gif");
            reveal_strlit("swf");
            reveal_strlit("webm");
        }
        match self {
            PostFormat::JPG => "jpg",
            PostFormat::PNG => "png",
            PostFormat::GIF => "gif",
            PostFormat::SWF => "swf",
            PostFormat::WEBM => "webm",
        }
    }

    /// The uppercase display name, as shown in the verbose block.
    pub fn display_name(&self) -> (r: &'static str)
        ensures
            r@ == spec_format_name(*self),
    {
        proof {
            reveal_strlit("JPEG");
            reveal_strlit("PNG");
            reveal_strlit("GIF");
            reveal_strlit("SWF");
            reveal_strlit("WEBM");
        }
        match self {
            PostFormat::JPG => "JPEG",
            PostFormat::PNG => "PNG",
            PostFormat::GIF => "GIF",
            PostFormat::SWF => "SWF",
            PostFormat::WEBM => "WEBM",
        }
    }

    /// Reads a format from a record's extension field.
    pub fn from_extension(s: &str) -> (r: Option<PostFormat>)
        ensures
            r == spec_format_of(s@),
    {
        if str_eq(s, "jpg") {
            Some(PostFormat::JPG)
        } else if str_eq(s, "png") {
            Some(PostFormat::PNG)
        } else if str_eq(s, "gif") {
            Some(PostFormat::GIF)
        } else if str_eq(s, "swf") {
            Some(PostFormat::SWF)
        } else if str_eq(s, "webm") {
            Some(PostFormat::WEBM)
        } else {
            None
        }
    }
}

/// A post's tags, grouped by category.
#[derive(Debug, PartialEq, Eq)]
pub struct PostTags {
    pub artist: Vec<String>,
    pub character: Vec<String>,
    pub species: Vec<String>,
    pub general: Vec<String>,
    pub meta: Vec<String>,
    pub lore: Vec<String>,
    pub invalid: Vec<String>,
}

/// A post's score: the signed total and the separate up and down counts.
#[derive(Debug, Clone, Copy, PartialEq, Eq, Structural)]
pub struct PostScore {
    pub total: i64,
    pub up: i64,
    pub down: i64,
}

/// A post's primary file reference.
#[derive(Debug, PartialEq, Eq)]
pub struct PostFile {
    pub url: String,
    pub ext: PostFormat,
    pub size: Option<u64>,
}

/// One media item record: identity, status, rating, score, tags, optional
/// file reference and relationship fields. Immutable after construction.
#[derive(Debug, PartialEq, Eq)]
pub struct Post {
    pub id: u64,
    pub status: PostStatus,
    pub rating: PostRating,
    pub description: String,
    pub created_secs: i64,
    pub created_nanos: u32,
    pub tags: PostTags,
    pub score: PostScore,
    pub fav_count: u64,
    pub file: Option<PostFile>,
    pub parent_id: Option<u64>,
    pub children: Vec<u64>,
}

impl Post {
    /// A well-formed post has a positive id and a nanosecond part below one
    /// second.
    pub open spec fn wf(self) -> bool {
        &&& self.id > 0
        &&& self.created_nanos < 1_000_000_000
    }
}

/// A clone of a vector of strings holds the same strings.
proof fn lemma_string_vec_clone_exact(a: &Vec<String>, b: &Vec<String>)
    requires
        b.len() == a.len(),
        forall|i: int| #![all_triggers] 0 <= i < a.len() ==> cloned::<String>(a[i], b[i]),
    ensures
        a@ == b@,
{
    assert forall|i: int| 0 <= i < a.len() implies a@[i] == b@[i] by {
        assert(cloned::<String>(a@[i], b@[i]));
    }
    assert(a@ =~= b@);
}

impl Clone for PostStatus {
    /// A clone holds the same status and reason.
    fn clone(&self) -> (res: Self)
        ensures
            res == *self,
    {
        match self {
            PostStatus::Active => PostStatus::Active,
            PostStatus::Flagged => PostStatus::Flagged,
            PostStatus::Pending => PostStatus::Pending,
            PostStatus::Deleted(reason) => PostStatus::Deleted(reason.clone()),
        }
    }
}

/// Whether two tag groups hold the same tags in every category.
pub open spec fn same_tags(a: PostTags, b: PostTags) -> bool {
    &&& a.artist@ == b.artist@
    &&& a.character@ == b.character@
    &&& a.species@ == b.species@
    &&& a.general@ == b.general@
    &&& a.meta@ == b.meta@
    &&& a.lore@ == b.lore@
    &&& a.invalid@ == b.invalid@
}

/// Whether two posts are structurally identical records: every field
/// equal, the tag and child collections element by element.
pub open spec fn same_record(a: Post, b: Post) -> bool {
    &&& a.id == b.id
    &&& a.status == b.status
    &&& a.rating == b.rating
    &&& a.description == b.description
    &&& a.created_secs == b.created_secs
    &&& a.created_nanos == b.created_nanos
    &&& same_tags(a.tags, b.tags)
    &&& a.score == b.score
    &&& a.fav_count == b.fav_count
    &&& a.file == b.file
    &&& a.parent_id == b.parent_id
    &&& a.children@ == b.children@
}

impl Clone for PostTags {
    /// A clone holds the same tags in every category.
    fn clone(&self) -> (res: Self)
        ensures
            same_tags(res, *self),
    {
        let artist = self.artist.clone();
        let character = self.character.clone();
        let species = self.species.clone();
        let general = self.general.clone();
        let meta = self.meta.clone();
        let lore = self.lore.clone();
        let invalid = self.invalid.clone();
        proof {
            lemma_string_vec_clone_exact(&self.artist, &artist);
            lemma_string_vec_clone_exact(&self.character, &character);
            lemma_string_vec_clone_exact(&self.species, &species);
            lemma_string_vec_clone_exact(&self.general, &general);
            lemma_string_vec_clone_exact(&self.meta, &meta);
            lemma_string_vec_clone_exact(&self.lore, &lore);
            lemma_string_vec_clone_exact(&self.invalid, &invalid);
        }
        PostTags { artist, character, species, general, meta, lore, invalid }
    }
}

impl Clone for PostFile {
    /// A clone holds the same reference.
    fn clone(&self) -> (res: Self)
        ensures
            res == *self,
    {
        PostFile { url: self.url.clone(), ext: self.ext, size: self.size }
    }
}

impl Clone for Post {
    /// A clone is a structurally identical record.
    fn clone(&self) -> (res: Self)
        ensures
            same_record(res, *self),
    {
        Post {
            id: self.id,
            status: self.status.clone(),
            rating: self.rating,
            description: self.description.clone(),
            created_secs: self.created_secs,
            created_nanos: self.created_nanos,
            tags: self.tags.clone(),
            score: self.score,
            fav_count: self.fav_count,
            file: match &self.file {
                Some(f) => Some(f.clone()),
                None => None,
            },
            parent_id: self.parent_id,
            children: self.children.clone(),
        }
    }
}

/// The plain fields of one API response record, each `None` where the
/// record lacks it. The transport layer fills this in; the library decides
/// what a valid record is.
#[derive(Debug, Default)]
pub struct RawPost {
    pub id: Option<u64>,
    pub status: Option<String>,
    pub delreason: Option<String>,
    pub rating: Option<String>,
    pub description: Option<String>,
    pub created_secs: Option<i64>,
    pub created_nanos: Option<u64>,
    pub artist: Option<Vec<String>>,
    pub tags: Option<String>,
    pub parent_id: Option<u64>,
    pub children: Option<String>,
    pub fav_count: Option<u64>,
    pub score: Option<i64>,
    pub score_up: Option<i64>,
    pub score_down: Option<i64>,
    pub file_url: Option<String>,
    pub file_ext: Option<String>,
    pub file_size: Option<u64>,
}

/// Whether a status field names a status, with a reason present when it
/// says deleted.
pub open spec fn spec_status_valid(status: Seq<char>, delreason: Option<String>) -> bool {
    ||| status == "active"@
    ||| status == "flagged"@
    ||| status == "pending"@
    ||| (status == "deleted"@ && delreason is Some)
}

/// The status a valid status field selects.
pub open spec fn spec_status_of(status: Seq<char>, delreason: Option<String>) -> PostStatus {
    if status == "active"@ {
        PostStatus::Active
    } else if status == "flagged"@ {
        PostStatus::Flagged
    } else if status == "pending"@ {
        PostStatus::Pending
    } else {
        PostStatus::Deleted(delreason->Some_0)
    }
}

/// Whether a rating field names a rating.
pub open spec fn spec_rating_valid(rating: Seq<char>) -> bool {
    rating == "s"@ || rating == "q"@ || rating == "e"@
}

/// The rating a valid rating field selects.
pub open spec fn spec_rating_of(rating: Seq<char>) -> PostRating {
    if rating == "s"@ {
        PostRating::Safe
    } else if rating == "q"@ {
        PostRating::Questionnable
    } else {
        PostRating::Explicit
    }
}

/// Whether a children field is well-formed: empty, or comma-separated
/// decimal ids.
pub open spec fn spec_children_valid(s: Seq<char>) -> bool {
    s.len() == 0 || forall|i: int|
        0 <= i < spec_split_commas(s).len() ==> is_u64_numeral(#[trigger] spec_split_commas(s)[i])
}

/// The ids a well-formed children field lists.
pub open spec fn spec_children_ids(s: Seq<char>) -> Seq<u64> {
    if s.len() == 0 {
        seq![]
    } else {
        spec_split_commas(s).map_values(|f: Seq<char>| (digits_val(numeral_digits(f)) as u64))
    }
}

/// Whether a record has every required field present and valid.
pub open spec fn spec_raw_valid(raw: RawPost) -> bool {
    &&& raw.id is Some && raw.id->Some_0 > 0
    &&& raw.status is Some && spec_status_valid(raw.status->Some_0@, raw.delreason)
    &&& raw.rating is Some && spec_rating_valid(raw.rating->Some_0@)
    &&& raw.description is Some
    &&& raw.created_secs is Some
    &&& raw.created_nanos is Some && raw.created_nanos->Some_0 < 1_000_000_000
    &&& raw.artist is Some
    &&& raw.tags is Some
    &&& (raw.children is Some ==> spec_children_valid(raw.children->Some_0@))
    &&& raw.fav_count is Some
    &&& raw.score is Some
    &&& (raw.file_url is Some ==> raw.file_ext is Some && spec_format_of(
        raw.file_ext->Some_0@,
    ) is Some)
}

/// Whether a post holds exactly what a valid record describes.
pub open spec fn spec_post_matches_raw(p: Post, raw: RawPost) -> bool {
    &&& p.id == raw.id->Some_0
    &&& p.status == spec_status_of(raw.status->Some_0@, raw.delreason)
    &&& p.rating == spec_rating_of(raw.rating->Some_0@)
    &&& p.description == raw.description->Some_0
    &&& p.created_secs == raw.created_secs->Some_0
    &&& p.created_nanos == raw.created_nanos->Some_0
    &&& p.tags.artist == raw.artist->Some_0
    &&& p.tags.general.deep_view() == spec_split_ws(raw.tags->Some_0@)
    &&& p.tags.character@ == Seq::<String>::empty()
    &&& p.tags.species@ == Seq::<String>::empty()
    &&& p.tags.meta@ == Seq::<String>::empty()
    &&& p.tags.lore@ == Seq::<String>::empty()
    &&& p.tags.invalid@ == Seq::<String>::empty()
    &&& p.score.total == raw.score->Some_0
    &&& p.score.up == (if raw.score_up is Some {
        raw.score_up->Some_0
    } else {
        0
    })
    &&& p.score.down == (if raw.score_down is Some {
        raw.score_down->Some_0
    } else {
        0
    })
    &&& p.fav_count == raw.fav_count->Some_0
    &&& (raw.file_url is Some <==> p.file is Some)
    &&& (raw.file_url is Some ==> {
        &&& p.file->Some_0.url == raw.file_url->Some_0
        &&& Some(p.file->Some_0.ext) == spec_format_of(raw.file_ext->Some_0@)
        &&& p.file->Some_0.size == raw.file_size
    })
    &&& p.parent_id == raw.parent_id
    &&& p.children@ == (if raw.children is Some {
        spec_children_ids(raw.children->Some_0@)
    } else {
        Seq::<u64>::empty()
    })
}

/// Parses a well-formed children field into the listed ids; `None` exactly
/// on a malformed field.
fn parse_children(s: &str) -> (r: Option<Vec<u64>>)
    ensures
        r is Some <==> spec_children_valid(s@),
        r is Some ==> r->Some_0@ == spec_children_ids(s@),
{
    if s.is_empty() {
        return Some(Vec::new());
    }
    let fields = split_commas(s);
    let mut out: Vec<u64> = Vec::new();
    let mut i: usize = 0;
    let ghost all = spec_split_commas(s@);
    while i < fields.len()
        invariant
            0 <= i <= fields.len(),
            s@.len() != 0,
            all == spec_split_commas(s@),
            fields.deep_view() == all,
            out@.len() == i,
            forall|j: int| 0 <= j < i ==> is_u64_numeral(#[trigger] all[j]),
            forall|j: int|
                0 <= j < i ==> #[trigger] out@[j] == digits_val(numeral_digits(all[j])) as u64,
        decreases fields.len() - i,
    {
        assert(fields[i as int]@ == all[i as int]);
        match parse_u64(fields[i].as_str()) {
            Some(v) => {
                out.push(v);
            },
            None => {
                proof {
                    assert(!is_u64_numeral(spec_split_commas(s@)[i as int]));
                }
                return None;
            },
        }
        i += 1;
    }
    proof {
        assert(out@ =~= spec_children_ids(s@));
    }
    Some(out)
}

impl Post {
    /// Builds a post from the plain fields of one response record; a record
    /// with a missing or invalid required field is rejected with a
    /// `Serialization` error naming the field.
    pub fn from_raw(raw: RawPost) -> (r: Result<Post, Error>)
        ensures
            r is Ok <==> spec_raw_valid(raw),
            r is Ok ==> spec_post_matches_raw(r->Ok_0, raw) && r->Ok_0.wf(),
            r is Err ==> r->Err_0 is Serialization,
    {
        let id = match raw.id {
            Some(v) => v,
            None => {
                return Err(Error::Serialization("missing post id".to_owned()));
            },
        };
        if id == 0 {
            return Err(Error::Serialization("post id must be positive".to_owned()));
        }
        let status_str = match raw.status {
            Some(v) => v,
            None => {
                return Err(Error::Serialization("missing status".to_owned()));
            },
        };
        let status = if str_eq(status_str.as_str(), "active") {
            PostStatus::Active
        } else if str_eq(status_str.as_str(), "flagged") {
            PostStatus::Flagged
        } else if str_eq(status_str.as_str(), "pending") {
            PostStatus::Pending
        } else if str_eq(status_str.as_str(), "deleted") {
            match raw.delreason {
                Some(reason) => PostStatus::Deleted(reason),
                None => {
                    return Err(Error::Serialization("missing deletion reason".to_owned()));
                },
            }
        } else {
            return Err(Error::Serialization("unknown status".to_owned()));
        };
        let rating_str = match raw.rating {
            Some(v) => v,
            None => {
                return Err(Error::Serialization("missing rating".to_owned()));
            },
        };
        let rating = if str_eq(rating_str.as_str(), "s") {
            PostRating::Safe
        } else if str_eq(rating_str.as_str(), "q") {
            PostRating::Questionnable
        } else if str_eq(rating_str.as_str(), "e") {
            PostRating::Explicit
        } else {
            return Err(Error::Serialization("unknown rating".to_owned()));
        };
        let description = match raw.description {
            Some(v) => v,
            None => {
                return Err(Error::Serialization("missing description".to_owned()));
            },
        };
        let created_secs = match raw.created_secs {
            Some(v) => v,
            None => {
                return Err(Error::Serialization("missing creation time".to_owned()));
            },
        };
        let created_nanos = match raw.created_nanos {
            Some(v) => {
                if v < 1_000_000_000 {
                    v as u32
                } else {
                    return Err(Error::Serialization("invalid creation time".to_owned()));
                }
            },
            None => {
                return Err(Error::Serialization("missing creation time".to_owned()));
            },
        };
        let artist = match raw.artist {
            Some(v) => v,
            None => {
                return Err(Error::Serialization("missing artist tags".to_owned()));
            },
        };
        let general = match raw.tags {
            Some(v) => split_whitespace_tokens(v.as_str()),
            None => {
                return Err(Error::Serialization("missing tags".to_owned()));
            },
        };
        let children = match raw.children {
            Some(v) => match parse_children(v.as_str()) {
                Some(ids) => ids,
                None => {
                    return Err(Error::Serialization("malformed children list".to_owned()));
                },
            },
            None => Vec::new(),
        };
        let fav_count = match raw.fav_count {
            Some(v) => v,
            None => {
                return Err(Error::Serialization("missing favorite count".to_owned()));
            },
        };
        let score_total = match raw.score {
            Some(v) => v,
            None => {
                return Err(Error::Serialization("missing score".to_owned()));
            },
        };
        let score_up = match raw.score_up {
            Some(v) => v,
            None => 0,
        };
        let score_down = match raw.score_down {
            Some(v) => v,
            None => 0,
        };
        let file = match raw.file_url {
            Some(url) => {
                let ext = match raw.file_ext {
                    Some(e) => match PostFormat::from_extension(e.as_str()) {
                        Some(f) => f,
                        None => {
                            return Err(Error::Serialization("unknown file type".to_owned()));
                        },
                    },
                    None => {
                        return Err(Error::Serialization("missing file type".to_owned()));
                    },
                };
                Some(PostFile { url, ext, size: raw.file_size })
            },
            None => None,
        };
        Ok(
            Post {
                id,
                status,
                rating,
                description,
                created_secs,
                created_nanos,
                tags: PostTags {
                    artist,
                    character: Vec::new(),
                    species: Vec::new(),
                    general,
                    meta: Vec::new(),
                    lore: Vec::new(),
                    invalid: Vec::new(),
                },
                score: PostScore { total: score_total, up: score_up, down: score_down },
                fav_count,
                file,
                parent_id: raw.parent_id,
                children,
            },
        )
    }
}

} // verus!
