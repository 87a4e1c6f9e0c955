use link_cleaner::republish::{
    build_buttons, compose_repost, display_name, open_context, permission_level, rewrite_text,
    step, unprivileged_path, Action, Author, Button, Context, Event, PermissionLevel, State,
};

fn link(original: &str, cleaned: &str) -> (String, String) {
    (original.to_string(), cleaned.to_string())
}

fn sample() -> Context {
    open_context(
        "look https://youtu.be/a?si=1 and https://open.spotify.com/t?si=2".to_string(),
        Some(Author { username: Some("ann".to_string()), first_name: "Ann".to_string() }),
    )
}

fn expected_buttons() -> Vec<Button> {
    vec![
        Button { number: 1, target: "https://youtu.be/a".to_string() },
        Button { number: 2, target: "https://open.spotify.com/t".to_string() },
    ]
}

#[test]
fn failed_query_counts_as_unprivileged() {
    assert_eq!(permission_level(None), PermissionLevel::Unprivileged);
    assert_eq!(permission_level(Some(false)), PermissionLevel::Unprivileged);
    assert_eq!(permission_level(Some(true)), PermissionLevel::Privileged);
}

#[test]
fn display_name_prefers_the_handle() {
    let with_handle = Some(Author { username: Some("ann".to_string()), first_name: "Ann".to_string() });
    assert_eq!(display_name(&with_handle), "ann");
    let without = Some(Author { username: None, first_name: "Ann".to_string() });
    assert_eq!(display_name(&without), "Ann");
    assert_eq!(display_name(&None), "Unknown");
}

#[test]
fn rewrite_text_replaces_every_occurrence() {
    let links = vec![link("https://youtu.be/a?si=1", "https://youtu.be/a")];
    assert_eq!(
        rewrite_text("x https://youtu.be/a?si=1 y https://youtu.be/a?si=1", &links),
        "x https://youtu.be/a y https://youtu.be/a"
    );
    assert_eq!(rewrite_text("abc", &Vec::new()), "abc");
    assert_eq!(rewrite_text("aaa", &vec![link("aa", "b")]), "ba");
    assert_eq!(rewrite_text("ab", &vec![link("", "-")]), "-a-b-");
    assert_eq!(rewrite_text("a b", &vec![link("a", "x"), link("b", "y")]), "x y");
}

#[test]
fn repost_names_the_author() {
    let ctx = sample();
    assert_eq!(
        compose_repost(&ctx),
        "ann: look https://youtu.be/a and https://open.spotify.com/t"
    );
}

#[test]
fn open_context_extracts_the_links() {
    let ctx = sample();
    assert_eq!(
        ctx.links,
        vec![
            link("https://youtu.be/a?si=1", "https://youtu.be/a"),
            link("https://open.spotify.com/t?si=2", "https://open.spotify.com/t"),
        ]
    );
}

#[test]
fn buttons_are_numbered_without_gaps() {
    let links = vec![
        link("a", "https://youtu.be/a"),
        link("b", "not a url"),
        link("c", "https://youtu.be/c"),
    ];
    assert_eq!(
        build_buttons(&links),
        vec![
            Button { number: 1, target: "https://youtu.be/a".to_string() },
            Button { number: 2, target: "https://youtu.be/c".to_string() },
        ]
    );
}

#[test]
fn message_without_links_ends_at_once() {
    let ctx = open_context("hello".to_string(), None);
    assert_eq!(step(State::Start, Event::Received, &ctx), (State::Done, Action::Stop));
}

#[test]
fn privileged_flow_deletes_and_reposts() {
    let ctx = sample();
    assert_eq!(
        step(State::Start, Event::Received, &ctx),
        (State::QueryingPermission, Action::QueryPermission)
    );
    assert_eq!(
        step(State::QueryingPermission, Event::PermissionAnswered(Some(true)), &ctx),
        (State::Deleting, Action::DeleteOriginal)
    );
    assert_eq!(
        step(State::Deleting, Event::Deleted(true), &ctx),
        (
            State::Reposting,
            Action::SendMessage("ann: look https://youtu.be/a and https://open.spotify.com/t".to_string())
        )
    );
    assert_eq!(step(State::Reposting, Event::Sent(true), &ctx), (State::Done, Action::Stop));
    assert_eq!(step(State::Reposting, Event::Sent(false), &ctx), (State::Done, Action::Fail));
}

#[test]
fn unprivileged_flow_replies_with_buttons() {
    let ctx = sample();
    assert_eq!(
        step(State::QueryingPermission, Event::PermissionAnswered(Some(false)), &ctx),
        (State::Replying, Action::SendReply(expected_buttons()))
    );
    assert_eq!(
        step(State::QueryingPermission, Event::PermissionAnswered(None), &ctx),
        (State::Replying, Action::SendReply(expected_buttons()))
    );
    assert_eq!(step(State::Replying, Event::Sent(true), &ctx), (State::Done, Action::Stop));
    assert_eq!(step(State::Replying, Event::Sent(false), &ctx), (State::Done, Action::Fail));
}

#[test]
fn failed_deletion_falls_back_to_the_reply() {
    let ctx = sample();
    let fallback = step(State::Deleting, Event::Deleted(false), &ctx);
    assert_eq!(fallback, (State::Replying, Action::SendReply(expected_buttons())));
    assert_eq!(
        fallback,
        step(State::QueryingPermission, Event::PermissionAnswered(Some(false)), &ctx)
    );
    assert_eq!(fallback, unprivileged_path(&ctx));
    assert_eq!(step(fallback.0, Event::Sent(true), &ctx), (State::Done, Action::Stop));
}

#[test]
fn nothing_is_sent_when_no_link_is_valid() {
    let ctx = Context {
        text: "x".to_string(),
        author: None,
        links: vec![link("a", "not a url"), link("b", "also not one")],
    };
    assert_eq!(unprivileged_path(&ctx), (State::Done, Action::Stop));
    assert_eq!(step(State::Deleting, Event::Deleted(false), &ctx), (State::Done, Action::Stop));
    assert_eq!(
        step(State::QueryingPermission, Event::PermissionAnswered(Some(false)), &ctx),
        (State::Done, Action::Stop)
    );
}

#[test]
fn stray_events_are_ignored() {
    let ctx = sample();
    assert_eq!(step(State::Done, Event::Sent(true), &ctx), (State::Done, Action::Ignore));
    assert_eq!(step(State::Done, Event::Received, &ctx), (State::Done, Action::Ignore));
    assert_eq!(step(State::Start, Event::Deleted(true), &ctx), (State::Start, Action::Ignore));
    assert_eq!(
        step(State::Deleting, Event::Sent(true), &ctx),
        (State::Deleting, Action::Ignore)
    );
}
