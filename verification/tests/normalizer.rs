use link_cleaner::normalizer::{
    find_marker, join_query, plan_cleaning, remove_si_parameter, strip_tracking,
    truncate_tracking, QueryEdit, UrlParts,
};

fn pair(k: &str, v: &str) -> (String, String) {
    (k.to_string(), v.to_string())
}

#[test]
fn test_remove_si_parameter_youtube() {
    let original = "https://youtu.be/Vc-ByDGOuQE?si=qIy-ihfrRKmDAPZP";
    let expected = "https://youtu.be/Vc-ByDGOuQE";
    assert_eq!(remove_si_parameter(original), expected);
}

#[test]
fn test_remove_si_parameter_youtube_music() {
    let original = "https://music.youtube.com/watch?v=nmYDYalgb5w&si=GGi18ac_fxnx4F1b";
    let expected = "https://music.youtube.com/watch?v=nmYDYalgb5w";
    assert_eq!(remove_si_parameter(original), expected);
}

#[test]
fn test_remove_si_parameter_spotify() {
    let original = "https://open.spotify.com/track/1FYWnRofuIgJf62AnX8i5S?si=bf00147df50f4141";
    let expected = "https://open.spotify.com/track/1FYWnRofuIgJf62AnX8i5S";
    assert_eq!(remove_si_parameter(original), expected);
}

#[test]
fn test_remove_si_parameter_with_multiple_params() {
    let original = "https://music.youtube.com/watch?v=nmYDYalgb5w&si=GGi18ac_fxnx4F1b&list=RDAMVMnmYDYalgb5w";
    let expected = "https://music.youtube.com/watch?v=nmYDYalgb5w&list=RDAMVMnmYDYalgb5w";
    assert_eq!(remove_si_parameter(original), expected);
}

#[test]
fn middle_parameter_is_removed_in_order() {
    assert_eq!(
        remove_si_parameter("https://open.spotify.com/track/x?a=1&si=X&b=2"),
        "https://open.spotify.com/track/x?a=1&b=2"
    );
}

#[test]
fn short_link_leaves_no_dangling_question_mark() {
    assert_eq!(remove_si_parameter("https://youtu.be/ID?si=TOKEN"), "https://youtu.be/ID");
}

#[test]
fn unparseable_text_passes_through() {
    assert_eq!(remove_si_parameter("not a url"), "not a url");
    assert_eq!(remove_si_parameter(""), "");
}

#[test]
fn clean_url_is_unchanged() {
    let plain = "https://open.spotify.com/track/1FYWnRofuIgJf62AnX8i5S";
    assert_eq!(remove_si_parameter(plain), plain);
    let with_query = "https://music.youtube.com/watch?v=nmYDYalgb5w";
    assert_eq!(remove_si_parameter(with_query), with_query);
}

#[test]
fn cleaning_twice_changes_nothing_more() {
    let inputs = [
        "https://youtu.be/Vc-ByDGOuQE?si=qIy-ihfrRKmDAPZP",
        "https://music.youtube.com/watch?v=nmYDYalgb5w&si=GGi18ac_fxnx4F1b&list=RDAMVMnmYDYalgb5w",
        "https://youtu.be/abcsi=token",
        "not a url",
    ];
    for u in inputs {
        let once = remove_si_parameter(u);
        assert_eq!(remove_si_parameter(&once), once);
    }
}

#[test]
fn fragment_is_kept() {
    assert_eq!(remove_si_parameter("https://youtu.be/x?si=1#t=5"), "https://youtu.be/x#t=5");
    assert_eq!(
        remove_si_parameter("https://youtu.be/x?v=2&si=1#t=5"),
        "https://youtu.be/x?v=2#t=5"
    );
}

#[test]
fn token_in_short_link_path_is_cut() {
    assert_eq!(remove_si_parameter("https://youtu.be/abcsi=token"), "https://youtu.be/abc");
}

#[test]
fn token_in_path_and_in_query_both_leave() {
    assert_eq!(
        remove_si_parameter("https://youtu.be/abcsi=token?si=x&v=1"),
        "https://youtu.be/abc?v=1"
    );
    assert_eq!(remove_si_parameter("https://youtu.be/abcsi=token?si=x"), "https://youtu.be/abc");
}

#[test]
fn token_in_path_of_other_host_stays() {
    let u = "https://open.spotify.com/track/abcsi=token";
    assert_eq!(remove_si_parameter(u), u);
}

#[test]
fn key_must_be_exactly_si() {
    let u = "https://youtu.be/x?sid=1&psi=2";
    assert_eq!(remove_si_parameter(u), u);
}

#[test]
fn strip_tracking_keeps_the_other_pairs_in_order() {
    let pairs = vec![pair("a", "1"), pair("si", "X"), pair("b", "2"), pair("si", "")];
    assert_eq!(strip_tracking(&pairs), vec![pair("a", "1"), pair("b", "2")]);
    assert_eq!(strip_tracking(&vec![pair("si", "X")]), Vec::<(String, String)>::new());
    assert_eq!(strip_tracking(&Vec::new()), Vec::<(String, String)>::new());
}

#[test]
fn join_query_writes_pairs() {
    assert_eq!(join_query(&Vec::new()), "");
    assert_eq!(join_query(&vec![pair("a", "1")]), "a=1");
    assert_eq!(join_query(&vec![pair("a", "1"), pair("b", ""), pair("c", "3")]), "a=1&b=&c=3");
}

#[test]
fn find_marker_gives_the_first_place() {
    assert_eq!(find_marker("/abcsi=xsi=y"), Some(4));
    assert_eq!(find_marker("si="), Some(0));
    assert_eq!(find_marker("/abc"), None);
    assert_eq!(find_marker("si"), None);
    assert_eq!(find_marker(""), None);
    assert_eq!(find_marker("/\u{e9}si=1"), Some(2));
}

#[test]
fn truncate_tracking_cuts_and_trims() {
    assert_eq!(truncate_tracking("/ID?si=TOKEN"), "/ID");
    assert_eq!(truncate_tracking("/ID??si=a"), "/ID");
    assert_eq!(truncate_tracking("/IDsi=asi=b"), "/ID");
    assert_eq!(truncate_tracking("/ID?"), "/ID");
    assert_eq!(truncate_tracking("/ID"), "/ID");
    assert_eq!(truncate_tracking("si=x"), "");
}

#[test]
fn plan_cleaning_decides_query_and_path() {
    let parts = UrlParts {
        serialization: "https://youtu.be/abcsi=t?a=1&si=2".to_string(),
        query: Some(vec![pair("a", "1"), pair("si", "2")]),
        host: Some("youtu.be".to_string()),
        path: "/abcsi=t".to_string(),
    };
    let edit = plan_cleaning(&parts);
    assert!(matches!(&edit.query, QueryEdit::Replace(q) if q == "a=1"));
    assert_eq!(edit.path, Some("/abc".to_string()));

    let parts = UrlParts {
        serialization: "https://open.spotify.com/abcsi=t?si=2".to_string(),
        query: Some(vec![pair("si", "2")]),
        host: Some("open.spotify.com".to_string()),
        path: "/abcsi=t".to_string(),
    };
    let edit = plan_cleaning(&parts);
    assert!(matches!(edit.query, QueryEdit::Remove));
    assert_eq!(edit.path, None);

    let parts = UrlParts {
        serialization: "https://youtu.be/abc".to_string(),
        query: None,
        host: Some("youtu.be".to_string()),
        path: "/abc".to_string(),
    };
    let edit = plan_cleaning(&parts);
    assert!(matches!(edit.query, QueryEdit::Keep));
    assert_eq!(edit.path, None);
}

#[test]
fn bare_key_is_written_with_an_equals_sign() {
    assert_eq!(remove_si_parameter("https://youtu.be/a?b"), "https://youtu.be/a?b=");
    assert_eq!(remove_si_parameter("https://youtu.be/a?b&si=1"), "https://youtu.be/a?b=");
}

#[test]
fn empty_query_is_dropped() {
    assert_eq!(remove_si_parameter("https://youtu.be/a?"), "https://youtu.be/a");
}

#[test]
fn encoded_separators_are_decoded() {
    assert_eq!(
        remove_si_parameter("https://youtu.be/a?x=%26si%3D1"),
        "https://youtu.be/a?x=&si=1"
    );
}

#[test]
fn url_is_written_in_the_parsers_spelling() {
    assert_eq!(remove_si_parameter("HTTPS://Open.Spotify.com"), "https://open.spotify.com/");
}

#[test]
fn overlong_link_is_left_alone() {
    let mut link = String::from("https://youtu.be/");
    for _ in 0..0x100_0000 {
        link.push('a');
    }
    link.push_str("?si=1");
    assert_eq!(remove_si_parameter(&link), link);
}

#[test]
fn long_link_within_the_limit_is_cleaned() {
    let mut link = String::from("https://youtu.be/");
    for _ in 0..100_000 {
        link.push('a');
    }
    let expected = link.clone();
    link.push_str("?si=1");
    assert_eq!(remove_si_parameter(&link), expected);
}
