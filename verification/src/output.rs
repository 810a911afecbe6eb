//! The output sink's pure half: the text each output mode produces, and
//! which files the stream-to-output mode touches. Writing the text or the
//! bytes to standard output stays outside.

use vstd::prelude::*;
use vstd::string::StringExecFns;
use crate::post::Post;
use crate::post::spec_format_name;
use crate::post::spec_rating_name;
use crate::text::dec_int;
use crate::text::dec_nat;
use crate::text::i64_to_string;
use crate::text::join_all;
use crate::text::spec_join;
use crate::text::u64_to_string;

verus! {

/// What rendering a creation time returns; a function of the seconds and
/// nanoseconds alone.
pub uninterp spec fn timestamp_text(secs: int, nanos: int) -> Seq<char>;

/// Relies on chrono: `Utc.timestamp_opt` builds the UTC date and time from
/// seconds and nanoseconds, and `DateTime`'s `Display` renders it, so the
/// text depends on the two numbers alone.
#[verifier::external_body]
fn render_timestamp(secs: i64, nanos: u32) -> (r: String)
    ensures
        r@ == timestamp_text(secs as int, nanos as int),
{
    match chrono::TimeZone::timestamp_opt(&chrono::Utc, secs, nanos) {
        chrono::LocalResult::Single(dt) => dt.to_string(),
        _ => String::new(),
    }
}

/// The magnitude of a signed value.
pub open spec fn spec_abs64(n: i64) -> nat {
    if n < 0 {
        (-(n as int)) as nat
    } else {
        n as nat
    }
}

/// Renders the magnitude of a signed value in decimal.
fn abs64_to_string(n: i64) -> (r: String)
    ensures
        r@ == dec_nat(spec_abs64(n)),
{
    if n >= 0 {
        u64_to_string(n as u64)
    } else {
        let mag: u64 = ((-(n + 1)) as u64) + 1;
        u64_to_string(mag)
    }
}

/// The attribution list after "by": the artists separated by commas, the
/// last two by "and", the line closed after the last one; nothing at all
/// when no artist is listed.
pub open spec fn spec_artist_list(artists: Seq<Seq<char>>) -> Seq<char>
    decreases artists.len(),
{
    if artists.len() == 0 {
        Seq::<char>::empty()
    } else if artists.len() == 1 {
        artists[0] + "\n"@
    } else if artists.len() == 2 {
        artists[0] + " and "@ + spec_artist_list(artists.skip(1))
    } else {
        artists[0] + ", "@ + spec_artist_list(artists.skip(1))
    }
}

fn artist_list_from(artists: &Vec<String>, i: usize) -> (r: String)
    requires
        i <= artists.len(),
    ensures
        r@ == spec_artist_list(artists.deep_view().skip(i as int)),
    decreases artists.len() - i,
{
    proof {
        reveal_strlit("\n");
        reveal_strlit(" and ");
        reveal_strlit(", ");
    }
    let ghost tail = artists.deep_view().skip(i as int);
    if i == artists.len() {
        proof {
            assert(tail =~= Seq::<Seq<char>>::empty());
        }
        String::new()
    } else {
        proof {
            assert(tail[0] == artists.deep_view()[i as int]);
            assert(tail.skip(1) =~= artists.deep_view().skip(i as int + 1));
        }
        let mut r = artists[i].clone();
        if i + 1 == artists.len() {
            r.append("\n");
        } else {
            if i + 2 == artists.len() {
                r.append(" and ");
            } else {
                r.append(", ");
            }
            let rest = artist_list_from(artists, i + 1);
            r.append(rest.as_str());
        }
        assert(r@ =~= spec_artist_list(tail));
        r
    }
}

/// One tag category of the verbose block: nothing when the category is
/// empty, else the bracketed label and the tags joined by spaces.
pub open spec fn spec_tag_category(label: Seq<char>, tags: Seq<Seq<char>>) -> Seq<char> {
    if tags.len() == 0 {
        Seq::<char>::empty()
    } else {
        "  ["@ + label + "]\n    "@ + spec_join(tags, " "@) + "\n"@
    }
}

fn tag_category(label: &str, tags: &Vec<String>) -> (r: String)
    ensures
        r@ == spec_tag_category(label@, tags.deep_view()),
{
    proof {
        reveal_strlit(" ");
        reveal_strlit("  [");
        reveal_strlit("]\n    ");
        reveal_strlit("\n");
    }
    if tags.len() == 0 {
        String::new()
    } else {
        let mut r = "  [".to_owned();
        r.append(label);
        r.append("]\n    ");
        let joined = join_all(tags, " ");
        r.append(joined.as_str());
        r.append("\n");
        assert(r@ =~= spec_tag_category(label@, tags.deep_view()));
        r
    }
}

/// The head line of the verbose block: the id with the deletion reason for
/// a deleted post, the id and the attribution for any other.
pub open spec fn spec_head_line(p: Post) -> Seq<char> {
    if p.status is Deleted {
        "#"@ + dec_nat(p.id as nat) + " (deleted: "@ + p.status->Deleted_0@ + ")\n"@
    } else {
        "#"@ + dec_nat(p.id as nat) + " by "@ + spec_artist_list(p.tags.artist.deep_view())
    }
}

/// The multi-line human-readable block of one post: deletion state or
/// attribution, rating, score breakdown, favorite count, file type when a
/// file is referenced, creation time, the tags by category, and the
/// description.
pub open spec fn spec_verbose_block(p: Post) -> Seq<char> {
    spec_head_line(p) + "Rating: "@ + spec_rating_name(p.rating) + "\n"@ + "Score: "@ + dec_int(
        p.score.total as int,
    ) + " (+"@ + dec_int(p.score.up as int) + "; -"@ + dec_nat(spec_abs64(p.score.down)) + ")\n"@
        + "Favs: "@ + dec_nat(p.fav_count as nat) + "\n"@ + (if p.file is Some {
        "Type: "@ + spec_format_name(p.file->Some_0.ext) + "\n"@
    } else {
        Seq::<char>::empty()
    }) + "Created at: "@ + timestamp_text(p.created_secs as int, p.created_nanos as int) + "\n"@
        + "Tags:\n"@ + spec_tag_category("artist"@, p.tags.artist.deep_view()) + spec_tag_category(
        "lore"@,
        p.tags.lore.deep_view(),
    ) + spec_tag_category("character"@, p.tags.character.deep_view()) + spec_tag_category(
        "species"@,
        p.tags.species.deep_view(),
    ) + spec_tag_category("general"@, p.tags.general.deep_view()) + spec_tag_category(
        "meta"@,
        p.tags.meta.deep_view(),
    ) + spec_tag_category("invalid"@, p.tags.invalid.deep_view()) + "Description: "@
        + p.description@
}

/// Renders one post as its multi-line human-readable block.
pub fn verbose_block(p: &Post) -> (r: String)
    ensures
        r@ == spec_verbose_block(*p),
{
    proof {
        reveal_strlit("#");
        reveal_strlit(" (deleted: ");
        reveal_strlit(")\n");
        reveal_strlit(" by ");
        reveal_strlit("Rating: ");
        reveal_strlit("Score: ");
        reveal_strlit(" (+");
        reveal_strlit("; -");
        reveal_strlit("Favs: ");
        reveal_strlit("Type: ");
        reveal_strlit("Created at: ");
        reveal_strlit("Tags:\n");
        reveal_strlit("Description: ");
        reveal_strlit("\n");
    }
    let mut r = "#".to_owned();
    let id_str = u64_to_string(p.id);
    r.append(id_str.as_str());
    match &p.status {
        crate::post::PostStatus::Deleted(reason) => {
            r.append(" (deleted: ");
            r.append(reason.as_str());
            r.append(")\n");
        },
        _ => {
            r.append(" by ");
            let artists = artist_list_from(&p.tags.artist, 0);
            r.append(artists.as_str());
            proof {
                assert(p.tags.artist.deep_view().skip(0) =~= p.tags.artist.deep_view());
            }
        },
    }
    assert(r@ =~= spec_head_line(*p));
    r.append("Rating: ");
    r.append(p.rating.name());
    r.append("\n");
    r.append("Score: ");
    let total_str = i64_to_string(p.score.total);
    r.append(total_str.as_str());
    r.append(" (+");
    let up_str = i64_to_string(p.score.up);
    r.append(up_str.as_str());
    r.append("; -");
    let down_str = abs64_to_string(p.score.down);
    r.append(down_str.as_str());
    r.append(")\n");
    r.append("Favs: ");
    let fav_str = u64_to_string(p.fav_count);
    r.append(fav_str.as_str());
    r.append("\n");
    if let Some(file) = &p.file {
        r.append("Type: ");
        r.append(file.ext.display_name());
        r.append("\n");
    }
    r.append("Created at: ");
    let when = render_timestamp(p.created_secs, p.created_nanos);
    r.append(when.as_str());
    r.append("\n");
    r.append("Tags:\n");
    let artist_cat = tag_category("artist", &p.tags.artist);
    r.append(artist_cat.as_str());
    let lore_cat = tag_category("lore", &p.tags.lore);
    r.append(lore_cat.as_str());
    let character_cat = tag_category("character", &p.tags.character);
    r.append(character_cat.as_str());
    let species_cat = tag_category("species", &p.tags.species);
    r.append(species_cat.as_str());
    let general_cat = tag_category("general", &p.tags.general);
    r.append(general_cat.as_str());
    let meta_cat = tag_category("meta", &p.tags.meta);
    r.append(meta_cat.as_str());
    let invalid_cat = tag_category("invalid", &p.tags.invalid);
    r.append(invalid_cat.as_str());
    r.append("Description: ");
    r.append(p.description.as_str());
    assert(r@ =~= spec_verbose_block(*p));
    r
}

/// The verbose rendering of a whole nonempty list: the blocks in order,
/// each closed by a line break, a fixed divider between consecutive
/// blocks.
pub open spec fn spec_verbose_blocks(posts: Seq<Post>) -> Seq<char>
    decreases posts.len(),
{
    if posts.len() == 0 {
        Seq::<char>::empty()
    } else if posts.len() == 1 {
        spec_verbose_block(posts[0]) + "\n"@
    } else {
        spec_verbose_block(posts[0]) + "\n"@ + "----------------\n"@ + spec_verbose_blocks(
            posts.skip(1),
        )
    }
}

/// The verbose output of the whole list: its blocks, or the no-results
/// notice for an empty list.
pub open spec fn spec_verbose_output(posts: Seq<Post>) -> Seq<char> {
    if posts.len() == 0 {
        "No post found.\n"@
    } else {
        spec_verbose_blocks(posts)
    }
}

fn verbose_blocks_from(posts: &Vec<Post>, i: usize) -> (r: String)
    requires
        i <= posts.len(),
    ensures
        r@ == spec_verbose_blocks(posts@.skip(i as int)),
    decreases posts.len() - i,
{
    proof {
        reveal_strlit("\n");
        reveal_strlit("----------------\n");
    }
    let ghost tail = posts@.skip(i as int);
    if i == posts.len() {
        proof {
            assert(tail =~= Seq::<Post>::empty());
        }
        String::new()
    } else {
        proof {
            assert(tail[0] == posts@[i as int]);
            assert(tail.skip(1) =~= posts@.skip(i as int + 1));
        }
        let mut r = verbose_block(&posts[i]);
        r.append("\n");
        if i + 1 < posts.len() {
            r.append("----------------\n");
            let rest = verbose_blocks_from(posts, i + 1);
            r.append(rest.as_str());
        }
        assert(r@ =~= spec_verbose_blocks(tail));
        r
    }
}

/// Renders the whole materialized list in verbose mode: one block per
/// post, deleted ones included and marked, the fixed divider between
/// blocks, and the no-results notice when the list is empty.
pub fn verbose_output(posts: &Vec<Post>) -> (r: String)
    ensures
        r@ == spec_verbose_output(posts@),
{
    if posts.len() == 0 {
        proof {
            reveal_strlit("No post found.\n");
        }
        "No post found.\n".to_owned()
    } else {
        let r = verbose_blocks_from(posts, 0);
        proof {
            assert(posts@.skip(0) =~= posts@);
        }
        r
    }
}

/// The identifier output: each post's id in decimal, one per line, in list
/// order.
pub open spec fn spec_id_lines(posts: Seq<Post>) -> Seq<char>
    decreases posts.len(),
{
    if posts.len() == 0 {
        Seq::<char>::empty()
    } else {
        dec_nat(posts[0].id as nat) + "\n"@ + spec_id_lines(posts.skip(1))
    }
}

/// Renders the identifier output: each post's id, one per line, in list
/// order.
pub fn id_lines(posts: &Vec<Post>) -> (r: String)
    ensures
        r@ == spec_id_lines(posts@),
{
    proof {
        reveal_strlit("\n");
        assert(posts@.skip(0) =~= posts@);
        assert(Seq::<char>::empty() + spec_id_lines(posts@) =~= spec_id_lines(posts@));
    }
    let mut r = String::new();
    let mut i: usize = 0;
    while i < posts.len()
        invariant
            0 <= i <= posts@.len(),
            r@ + spec_id_lines(posts@.skip(i as int)) == spec_id_lines(posts@),
        decreases posts@.len() - i,
    {
        proof {
            reveal_strlit("\n");
            assert(posts@.skip(i as int)[0] == posts@[i as int]);
            assert(posts@.skip(i as int).skip(1) =~= posts@.skip(i as int + 1));
        }
        let id_str = u64_to_string(posts[i].id);
        r.append(id_str.as_str());
        r.append("\n");
        i += 1;
    }
    proof {
        assert(posts@.skip(posts@.len() as int) =~= Seq::<Post>::empty());
        assert(r@ =~= spec_id_lines(posts@));
    }
    r
}

/// The file URLs the stream-to-output mode reads, in list order: one per
/// post that is neither deleted nor without a file reference; deleted
/// posts and posts without a file are silently passed over.
pub open spec fn spec_stream_urls(posts: Seq<Post>) -> Seq<Seq<char>>
    decreases posts.len(),
{
    if posts.len() == 0 {
        seq![]
    } else {
        (if !(posts[0].status is Deleted) && posts[0].file is Some {
            seq![posts[0].file->Some_0.url@]
        } else {
            seq![]
        }) + spec_stream_urls(posts.skip(1))
    }
}

/// Lists the file URLs the stream-to-output mode downloads and
/// concatenates, in list order, excluding deleted posts and posts without
/// a file reference.
pub fn stream_urls(posts: &Vec<Post>) -> (r: Vec<String>)
    ensures
        r.deep_view() == spec_stream_urls(posts@),
{
    let mut r: Vec<String> = Vec::new();
    let mut i: usize = 0;
    proof {
        assert(posts@.skip(0) =~= posts@);
        assert(r.deep_view() =~= Seq::<Seq<char>>::empty());
        assert(Seq::<Seq<char>>::empty() + spec_stream_urls(posts@) =~= spec_stream_urls(posts@));
    }
    while i < posts.len()
        invariant
            0 <= i <= posts@.len(),
            r.deep_view() + spec_stream_urls(posts@.skip(i as int)) == spec_stream_urls(posts@),
        decreases posts@.len() - i,
    {
        proof {
            assert(posts@.skip(i as int)[0] == posts@[i as int]);
            assert(posts@.skip(i as int).skip(1) =~= posts@.skip(i as int + 1));
        }
        let deleted = posts[i].status.is_deleted();
        if !deleted {
            if let Some(file) = &posts[i].file {
                let ghost before = r.deep_view();
                r.push(file.url.clone());
                proof {
                    assert(r.deep_view() =~= before.push(posts@[i as int].file->Some_0.url@));
                }
            }
        }
        proof {
            assert(r.deep_view() + spec_stream_urls(posts@.skip(i as int + 1)) =~= spec_stream_urls(
                posts@,
            ));
        }
        i += 1;
    }
    proof {
        assert(posts@.skip(posts@.len() as int) =~= Seq::<Post>::empty());
        assert(r.deep_view() =~= spec_stream_urls(posts@));
    }
    r
}

} // verus!
