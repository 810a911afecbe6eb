use get621::error::Error;
use get621::output::{id_lines, stream_urls, verbose_block, verbose_output};
use get621::post::{
    Post, PostFile, PostFormat, PostRating, PostScore, PostStatus, PostTags,
};
use get621::reverse::{
    candidate_ids, direct_extension_candidates, direct_file_name, filter_candidates, require_auth,
    RawCandidate, ReverseSearchCandidate,
};
use get621::save::{count_outcomes, save_decision, save_file_name, save_plan, SaveDecision};

fn empty_tags() -> PostTags {
    PostTags {
        artist: Vec::new(),
        character: Vec::new(),
        species: Vec::new(),
        general: Vec::new(),
        meta: Vec::new(),
        lore: Vec::new(),
        invalid: Vec::new(),
    }
}

fn post_with_file(id: u64, ext: PostFormat) -> Post {
    Post {
        id,
        status: PostStatus::Active,
        rating: PostRating::Safe,
        description: String::from("d"),
        created_secs: 0,
        created_nanos: 0,
        tags: empty_tags(),
        score: PostScore { total: 0, up: 0, down: 0 },
        fav_count: 0,
        file: Some(PostFile { url: format!("https://files/{}", id), ext, size: None }),
        parent_id: None,
        children: Vec::new(),
    }
}

fn candidate(id: u64, score: Option<u32>) -> RawCandidate {
    RawCandidate {
        id,
        file_ext: String::from("jpg"),
        file_url: format!("https://files/{}.jpg", id),
        score_hundredths: score,
    }
}

#[test]
fn threshold_keeps_the_boundary_and_drops_below() {
    // Threshold 90.00%; scores 95.00, 90.00 and 89.90.
    let cands = vec![
        candidate(1, Some(9500)),
        candidate(2, Some(9000)),
        candidate(3, Some(8990)),
    ];
    let survivors = filter_candidates(&cands, 9000).unwrap();
    let ids: Vec<u64> = survivors.iter().map(|c| c.id).collect();
    assert_eq!(ids, vec![1, 2]);
    assert_eq!(candidate_ids(&survivors), vec![1, 2]);
}

#[test]
fn a_candidate_without_a_score_invalidates_the_batch() {
    // Even a candidate that would be discarded anyway makes the whole
    // response invalid: a hard stop, not a per-candidate skip.
    let cands = vec![candidate(1, Some(9500)), candidate(3, None)];
    assert_eq!(filter_candidates(&cands, 9000), Err(Error::IqdbQueryError));
    let empty: Vec<RawCandidate> = Vec::new();
    assert_eq!(filter_candidates(&empty, 9000), Ok(Vec::new()));
}

#[test]
fn the_session_needs_token_and_cookie() {
    assert_eq!(
        require_auth(Some(String::from("t")), Some(String::from("c"))),
        Ok((String::from("t"), String::from("c")))
    );
    assert_eq!(
        require_auth(None, Some(String::from("c"))),
        Err(Error::AuthTokenNotFound)
    );
    assert_eq!(
        require_auth(Some(String::from("t")), None),
        Err(Error::AuthTokenNotFound)
    );
}

#[test]
fn direct_strategy_names_and_extension_guesses() {
    let c = ReverseSearchCandidate {
        id: 5,
        file_ext: String::from("gif"),
        file_url: String::from("https://files/5.gif"),
        score_hundredths: 9500,
    };
    assert_eq!(direct_file_name(&c), "5.gif");
    assert_eq!(direct_extension_candidates(&c), vec![String::from("gif")]);
    let unknown = ReverseSearchCandidate { file_ext: String::new(), ..c };
    assert_eq!(
        direct_extension_candidates(&unknown),
        vec![
            String::from("jpg"),
            String::from("png"),
            String::from("gif"),
            String::from("swf"),
            String::from("webm")
        ]
    );
}

#[test]
fn save_names_inside_and_outside_a_pool() {
    let posts = vec![
        post_with_file(10, PostFormat::JPG),
        post_with_file(20, PostFormat::PNG),
        post_with_file(30, PostFormat::WEBM),
    ];
    assert_eq!(save_file_name(&posts[0], Some((42, 1))), "42-1_10.jpg");
    assert_eq!(save_file_name(&posts[1], Some((42, 2))), "42-2_20.png");
    assert_eq!(save_file_name(&posts[2], Some((42, 3))), "42-3_30.webm");
    assert_eq!(save_file_name(&posts[0], None), "10.jpg");
    assert_eq!(save_file_name(&posts[1], None), "20.png");
    assert_eq!(save_file_name(&posts[2], None), "30.webm");

    let plan = save_plan(&posts, Some(42));
    let names: Vec<String> = plan
        .into_iter()
        .map(|d| match d {
            SaveDecision::Save(item) => item.file_name,
            _ => panic!("every post here has a file"),
        })
        .collect();
    assert_eq!(names, vec!["42-1_10.jpg", "42-2_20.png", "42-3_30.webm"]);
}

#[test]
fn deleted_posts_are_excluded_from_saving() {
    let mut deleted = post_with_file(20, PostFormat::PNG);
    deleted.status = PostStatus::Deleted(String::from("gone"));
    let mut no_file = post_with_file(30, PostFormat::GIF);
    no_file.file = None;
    let posts = vec![post_with_file(10, PostFormat::JPG), deleted, no_file];
    let plan = save_plan(&posts, None);
    assert!(matches!(plan[0], SaveDecision::Save(_)));
    assert!(matches!(plan[1], SaveDecision::Skip));
    assert_eq!(plan[2], SaveDecision::Fail(Error::MissingFileUrl));
    assert_eq!(
        save_decision(&posts[1], None),
        SaveDecision::Skip
    );
}

#[test]
fn one_failed_download_never_hides_the_rest() {
    // Three posts to save; the second download fails on the network. The
    // other two are still written, and exactly one error is reported.
    let outcomes: Vec<Result<u64, Error>> = vec![
        Ok(2048),
        Err(Error::Network(String::from("reset"))),
        Ok(512),
    ];
    let (saved, failed) = count_outcomes(&outcomes);
    assert_eq!(saved, 2);
    assert_eq!(failed, 1);
}

#[test]
fn stream_output_skips_deleted_and_fileless_posts() {
    let mut deleted = post_with_file(2, PostFormat::PNG);
    deleted.status = PostStatus::Deleted(String::from("gone"));
    let mut no_file = post_with_file(3, PostFormat::GIF);
    no_file.file = None;
    let posts = vec![post_with_file(1, PostFormat::JPG), deleted, no_file, post_with_file(4, PostFormat::SWF)];
    assert_eq!(
        stream_urls(&posts),
        vec![String::from("https://files/1"), String::from("https://files/4")]
    );
}

#[test]
fn id_output_is_one_id_per_line() {
    let posts = vec![post_with_file(1, PostFormat::JPG), post_with_file(23, PostFormat::PNG)];
    assert_eq!(id_lines(&posts), "1\n23\n");
    assert_eq!(id_lines(&Vec::new()), "");
}

#[test]
fn verbose_block_renders_every_field() {
    let mut p = post_with_file(7, PostFormat::PNG);
    p.tags.artist = vec![String::from("alice"), String::from("bob")];
    p.tags.general = vec![String::from("one"), String::from("two")];
    p.description = String::from("a desc");
    p.score = PostScore { total: 5, up: 7, down: -2 };
    p.fav_count = 3;
    assert_eq!(
        verbose_block(&p),
        "#7 by alice and bob\n\
         Rating: safe\n\
         Score: 5 (+7; -2)\n\
         Favs: 3\n\
         Type: PNG\n\
         Created at: 1970-01-01 00:00:00 UTC\n\
         Tags:\n\
         \x20 [artist]\n    alice bob\n\
         \x20 [general]\n    one two\n\
         Description: a desc"
    );
}

#[test]
fn verbose_marks_deleted_posts_but_still_lists_them() {
    let mut p = post_with_file(9, PostFormat::JPG);
    p.status = PostStatus::Deleted(String::from("gone"));
    p.file = None;
    p.rating = PostRating::Explicit;
    let block = verbose_block(&p);
    assert!(block.starts_with("#9 (deleted: gone)\n"));
    assert!(block.contains("Rating: explicit\n"));
    // No file, no type line.
    assert!(!block.contains("Type:"));

    let output = verbose_output(&vec![p, post_with_file(10, PostFormat::GIF)]);
    assert!(output.contains("#9 (deleted: gone)"));
    assert!(output.contains("----------------\n#10"));
}

#[test]
fn verbose_output_of_nothing_is_the_notice() {
    assert_eq!(verbose_output(&Vec::new()), "No post found.\n");
}

#[test]
fn three_artists_read_naturally() {
    let mut p = post_with_file(1, PostFormat::JPG);
    p.tags.artist = vec![String::from("a"), String::from("b"), String::from("c")];
    assert!(verbose_block(&p).starts_with("#1 by a, b and c\n"));
}
