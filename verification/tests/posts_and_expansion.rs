use get621::common::PostMapMode;
use get621::error::Error;
use get621::expand::{post_map_from_store, post_map_plan, resolve_from_store};
use get621::post::{
    Post, PostFile, PostFormat, PostRating, PostScore, PostStatus, PostTags, RawPost,
};

fn empty_tags() -> PostTags {
    PostTags {
        artist: Vec::new(),
        character: Vec::new(),
        species: Vec::new(),
        general: Vec::new(),
        meta: Vec::new(),
        lore: Vec::new(),
        invalid: Vec::new(),
    }
}

fn plain_post(id: u64) -> Post {
    Post {
        id,
        status: PostStatus::Active,
        rating: PostRating::Safe,
        description: String::from("d"),
        created_secs: 0,
        created_nanos: 0,
        tags: empty_tags(),
        score: PostScore { total: 0, up: 0, down: 0 },
        fav_count: 0,
        file: None,
        parent_id: None,
        children: Vec::new(),
    }
}

fn full_raw() -> RawPost {
    RawPost {
        id: Some(7),
        status: Some(String::from("active")),
        delreason: None,
        rating: Some(String::from("q")),
        description: Some(String::from("a fox")),
        created_secs: Some(1_431_648_000),
        created_nanos: Some(0),
        artist: Some(vec![String::from("alice")]),
        tags: Some(String::from("red  fox\tcanine")),
        parent_id: Some(3),
        children: Some(String::from("11,12")),
        fav_count: Some(9),
        score: Some(5),
        score_up: Some(7),
        score_down: Some(-2),
        file_url: Some(String::from("https://files/7.png")),
        file_ext: Some(String::from("png")),
        file_size: Some(1000),
    }
}

#[test]
fn a_full_record_parses_field_by_field() {
    let p = Post::from_raw(full_raw()).unwrap();
    assert_eq!(p.id, 7);
    assert_eq!(p.status, PostStatus::Active);
    assert_eq!(p.rating, PostRating::Questionnable);
    assert_eq!(p.description, "a fox");
    assert_eq!(p.created_secs, 1_431_648_000);
    assert_eq!(p.created_nanos, 0);
    assert_eq!(p.tags.artist, vec![String::from("alice")]);
    assert_eq!(
        p.tags.general,
        vec![String::from("red"), String::from("fox"), String::from("canine")]
    );
    assert!(p.tags.character.is_empty());
    assert_eq!(p.parent_id, Some(3));
    assert_eq!(p.children, vec![11, 12]);
    assert_eq!(p.fav_count, 9);
    assert_eq!(p.score, PostScore { total: 5, up: 7, down: -2 });
    let file = p.file.unwrap();
    assert_eq!(file.url, "https://files/7.png");
    assert_eq!(file.ext, PostFormat::PNG);
    assert_eq!(file.size, Some(1000));
}

#[test]
fn deleted_records_carry_their_reason() {
    let mut raw = full_raw();
    raw.status = Some(String::from("deleted"));
    raw.delreason = Some(String::from("takedown"));
    raw.file_url = None;
    raw.file_ext = None;
    raw.file_size = None;
    let p = Post::from_raw(raw).unwrap();
    assert_eq!(p.status, PostStatus::Deleted(String::from("takedown")));
    assert!(p.status.is_deleted());
    assert_eq!(p.file, None);
}

#[test]
fn malformed_records_are_serialization_errors() {
    let mut raw = full_raw();
    raw.id = None;
    assert!(matches!(Post::from_raw(raw), Err(Error::Serialization(_))));

    let mut raw = full_raw();
    raw.id = Some(0);
    assert!(matches!(Post::from_raw(raw), Err(Error::Serialization(_))));

    let mut raw = full_raw();
    raw.rating = Some(String::from("z"));
    assert!(matches!(Post::from_raw(raw), Err(Error::Serialization(_))));

    let mut raw = full_raw();
    raw.status = Some(String::from("deleted"));
    raw.delreason = None;
    assert!(matches!(Post::from_raw(raw), Err(Error::Serialization(_))));

    let mut raw = full_raw();
    raw.children = Some(String::from("11,x"));
    assert!(matches!(Post::from_raw(raw), Err(Error::Serialization(_))));

    let mut raw = full_raw();
    raw.created_nanos = Some(1_000_000_000);
    assert!(matches!(Post::from_raw(raw), Err(Error::Serialization(_))));

    let mut raw = full_raw();
    raw.file_ext = Some(String::from("tiff"));
    assert!(matches!(Post::from_raw(raw), Err(Error::Serialization(_))));

    let mut raw = full_raw();
    raw.file_ext = None;
    assert!(matches!(Post::from_raw(raw), Err(Error::Serialization(_))));
}

#[test]
fn empty_children_field_means_no_children() {
    let mut raw = full_raw();
    raw.children = Some(String::new());
    let p = Post::from_raw(raw).unwrap();
    assert!(p.children.is_empty());

    let mut raw = full_raw();
    raw.children = None;
    let p = Post::from_raw(raw).unwrap();
    assert!(p.children.is_empty());
}

#[test]
fn parent_expansion_skips_orphans_and_keeps_order() {
    let mut a = plain_post(1);
    a.parent_id = Some(100);
    let b = plain_post(2);
    let mut c = plain_post(3);
    c.parent_id = Some(300);
    // The post without a parent contributes zero entries; the others one
    // each, at the corresponding position.
    let plan = post_map_plan(PostMapMode::Parents, &vec![a, b, c]);
    assert_eq!(plan, vec![100, 300]);
}

#[test]
fn children_expansion_length_is_the_sum_of_children() {
    let mut a = plain_post(1);
    a.children = vec![10, 11];
    let b = plain_post(2);
    let mut c = plain_post(3);
    c.children = vec![12];
    let posts = vec![a, b, c];
    let plan = post_map_plan(PostMapMode::Children, &posts);
    assert_eq!(plan.len(), posts.iter().map(|p| p.children.len()).sum::<usize>());
    // Input-then-children order.
    assert_eq!(plan, vec![10, 11, 12]);
}

#[test]
fn identity_mode_plans_no_fetches() {
    let posts = vec![plain_post(1), plain_post(2)];
    assert_eq!(post_map_plan(PostMapMode::Identity, &posts), Vec::<u64>::new());
}

#[test]
fn resolving_twice_yields_identical_posts() {
    let mut target = plain_post(55);
    target.description = String::from("same either way");
    let store = vec![plain_post(1), target, plain_post(2)];
    // Once as a search result, once as someone's parent: the same record
    // both times, given an unchanged remote state.
    let first = resolve_from_store(&store, 55).unwrap().clone();
    let second = resolve_from_store(&store, 55).unwrap().clone();
    assert_eq!(first, second);
    assert!(resolve_from_store(&store, 999).is_none());
}

#[test]
fn post_map_replaces_candidates_through_the_store() {
    let parent = plain_post(100);
    let child_a = plain_post(10);
    let child_b = plain_post(11);
    let store = vec![parent, child_a, child_b];

    let mut cand = plain_post(1);
    cand.parent_id = Some(100);
    let out = post_map_from_store(&store, PostMapMode::Parents, vec![cand]);
    assert_eq!(out.len(), 1);
    assert_eq!(out[0].id, 100);

    let mut cand = plain_post(1);
    cand.children = vec![10, 11];
    let out = post_map_from_store(&store, PostMapMode::Children, vec![cand]);
    assert_eq!(out.iter().map(|p| p.id).collect::<Vec<_>>(), vec![10, 11]);

    // An id the store lacks is skipped; identity passes through unchanged.
    let mut cand = plain_post(1);
    cand.children = vec![10, 999, 11];
    let out = post_map_from_store(&store, PostMapMode::Children, vec![cand]);
    assert_eq!(out.iter().map(|p| p.id).collect::<Vec<_>>(), vec![10, 11]);

    let cand = plain_post(77);
    let out = post_map_from_store(&store, PostMapMode::Identity, vec![cand]);
    assert_eq!(out.len(), 1);
    assert_eq!(out[0].id, 77);
}
