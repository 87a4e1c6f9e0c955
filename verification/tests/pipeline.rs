use link_cleaner::pipeline::{clean_candidates, extract_music_links};

#[test]
fn end_to_end_example() {
    let text = "check this https://music.youtube.com/watch?v=nmYDYalgb5w&si=GGi18ac_fxnx4F1b&list=RDAMVMnmYDYalgb5w out";
    let links = extract_music_links(text);
    assert_eq!(links.len(), 1);
    assert_eq!(
        links[0].0,
        "https://music.youtube.com/watch?v=nmYDYalgb5w&si=GGi18ac_fxnx4F1b&list=RDAMVMnmYDYalgb5w"
    );
    assert_eq!(links[0].1, "https://music.youtube.com/watch?v=nmYDYalgb5w&list=RDAMVMnmYDYalgb5w");
}

#[test]
fn clean_links_are_left_out() {
    let text = "https://youtu.be/abc and https://open.spotify.com/track/1?si=x";
    let links = extract_music_links(text);
    assert_eq!(
        links,
        vec![(
            "https://open.spotify.com/track/1?si=x".to_string(),
            "https://open.spotify.com/track/1".to_string()
        )]
    );
    assert!(extract_music_links("https://youtu.be/abc").is_empty());
    assert!(extract_music_links("no links").is_empty());
}

#[test]
fn no_pair_holds_an_unchanged_link() {
    let text = "https://youtu.be/a?si=1 https://youtu.be/b https://music.youtube.com/c?v=1&si=2 https://open.spotify.com/d";
    let links = extract_music_links(text);
    assert_eq!(links.len(), 2);
    for (original, cleaned) in &links {
        assert_ne!(original, cleaned);
    }
}

#[test]
fn pairs_follow_pattern_priority() {
    let text = "https://open.spotify.com/t?si=1 https://youtu.be/a?si=2";
    let links = extract_music_links(text);
    assert_eq!(links[0].1, "https://youtu.be/a");
    assert_eq!(links[1].1, "https://open.spotify.com/t");
}

#[test]
fn extraction_is_repeatable() {
    let text = "x https://youtu.be/a?si=2 y";
    assert_eq!(extract_music_links(text), extract_music_links(text));
}

#[test]
fn clean_candidates_keeps_changed_ones() {
    let candidates = vec![
        "https://youtu.be/a".to_string(),
        "https://youtu.be/b?si=1".to_string(),
        "not a url".to_string(),
    ];
    assert_eq!(
        clean_candidates(&candidates),
        vec![("https://youtu.be/b?si=1".to_string(), "https://youtu.be/b".to_string())]
    );
}
