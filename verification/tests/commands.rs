use link_cleaner::commands::{test_report, TestReport};

#[test]
fn empty_argument_asks_for_a_url() {
    assert_eq!(test_report(""), TestReport::MissingUrl);
}

#[test]
fn clean_url_has_nothing_to_remove() {
    assert_eq!(test_report("https://youtu.be/Vc-ByDGOuQE"), TestReport::NothingToRemove);
    assert_eq!(test_report("not a url"), TestReport::NothingToRemove);
}

#[test]
fn tracked_url_is_reported_cleaned() {
    assert_eq!(
        test_report("https://youtu.be/Vc-ByDGOuQE?si=qIy-ihfrRKmDAPZP"),
        TestReport::Removed("https://youtu.be/Vc-ByDGOuQE".to_string())
    );
}
