//! The decisions of the republication flow: what to ask of the chat platform
//! next, given what it answered last.

use crate::normalizer::{pair_views, parsed_url, split_url};
use crate::pipeline::{extract_music_links, extract_music_links_spec};
use vstd::prelude::*;

verus! {

/// The name shown for a message without a known author.
pub const UNKNOWN_AUTHOR: &'static str = "Unknown";

/// What the bot may do in a conversation.
#[derive(Clone, Copy, PartialEq, Eq, Debug, Structural)]
pub enum PermissionLevel {
    Privileged,
    Unprivileged,
}

/// Where the flow stands.
#[derive(Clone, Copy, PartialEq, Eq, Debug, Structural)]
pub enum State {
    Start,
    QueryingPermission,
    /// The privileged path waits for the deletion of the original message.
    Deleting,
    /// The privileged path waits for its new message to be sent.
    Reposting,
    /// The unprivileged path waits for its reply to be sent.
    Replying,
    Done,
}

/// What the chat platform reported.
#[derive(Clone, Copy, PartialEq, Eq, Debug, Structural)]
pub enum Event {
    /// The message arrived.
    Received,
    /// The membership query ended: `Some(true)` for an elevated role,
    /// `Some(false)` for an ordinary one, `None` where the query failed.
    PermissionAnswered(Option<bool>),
    /// The deletion ended, well or not.
    Deleted(bool),
    /// The send ended, well or not.
    Sent(bool),
}

/// One button of the reply.
#[derive(Clone, PartialEq, Eq, Debug)]
pub struct Button {
    /// The number shown in the label: the buttons of a reply count from one.
    pub number: usize,
    /// The cleaned link that the button opens.
    pub target: String,
}

/// A button as a number and a sequence of characters.
pub struct ButtonView {
    pub number: nat,
    pub target: Seq<char>,
}

impl View for Button {
    type V = ButtonView;

    open spec fn view(&self) -> ButtonView {
        ButtonView { number: self.number as nat, target: self.target@ }
    }
}

/// The views of a sequence of buttons.
pub open spec fn button_views(buttons: Seq<Button>) -> Seq<ButtonView> {
    Seq::new(buttons.len(), |i: int| buttons[i]@)
}

/// What the caller is to do next.
#[derive(Clone, PartialEq, Eq, Debug)]
pub enum Action {
    /// Ask the platform for the bot's own role in the conversation.
    QueryPermission,
    /// Delete the original message.
    DeleteOriginal,
    /// Send this text to the conversation as a new message.
    SendMessage(String),
    /// Reply to the original message with these buttons.
    SendReply(Vec<Button>),
    /// Nothing more: the flow has ended well.
    Stop,
    /// Nothing more: the last send failed, and the failure goes to the caller.
    Fail,
    /// The event does not belong to this state and changes nothing.
    Ignore,
}

/// An action, with its texts as sequences of characters.
pub enum ActionView {
    QueryPermission,
    DeleteOriginal,
    SendMessage(Seq<char>),
    SendReply(Seq<ButtonView>),
    Stop,
    Fail,
    Ignore,
}

impl View for Action {
    type V = ActionView;

    open spec fn view(&self) -> ActionView {
        match self {
            Action::QueryPermission => ActionView::QueryPermission,
            Action::DeleteOriginal => ActionView::DeleteOriginal,
            Action::SendMessage(text) => ActionView::SendMessage(text@),
            Action::SendReply(buttons) => ActionView::SendReply(button_views(buttons@)),
            Action::Stop => ActionView::Stop,
            Action::Fail => ActionView::Fail,
            Action::Ignore => ActionView::Ignore,
        }
    }
}

/// Who wrote a message.
pub struct Author {
    pub username: Option<String>,
    pub first_name: String,
}

/// An author, with the names as sequences of characters.
pub struct AuthorView {
    pub username: Option<Seq<char>>,
    pub first_name: Seq<char>,
}

impl View for Author {
    type V = AuthorView;

    open spec fn view(&self) -> AuthorView {
        AuthorView {
            username: match self.username {
                Some(u) => Some(u@),
                None => None,
            },
            first_name: self.first_name@,
        }
    }
}

/// The message that the flow handles, with the links found in it.
pub struct Context {
    pub text: String,
    pub author: Option<Author>,
    pub links: Vec<(String, String)>,
}

/// A message with its links, as sequences of characters.
pub struct ContextView {
    pub text: Seq<char>,
    pub author: Option<AuthorView>,
    pub links: Seq<(Seq<char>, Seq<char>)>,
}

impl View for Context {
    type V = ContextView;

    open spec fn view(&self) -> ContextView {
        ContextView {
            text: self.text@,
            author: match self.author {
                Some(a) => Some(a@),
                None => None,
            },
            links: pair_views(self.links@),
        }
    }
}

/// The level that a membership answer stands for: privileged only where the
/// platform said so.
pub open spec fn permission_of(answer: Option<bool>) -> PermissionLevel {
    if answer == Some(true) {
        PermissionLevel::Privileged
    } else {
        PermissionLevel::Unprivileged
    }
}

/// The name shown for an author: the handle, else the first name, else the
/// placeholder.
pub open spec fn display_name_spec(author: Option<AuthorView>) -> Seq<char> {
    match author {
        None => UNKNOWN_AUTHOR@,
        Some(a) => match a.username {
            Some(u) => u,
            None => a.first_name,
        },
    }
}

/// `text` with each occurrence of `from` replaced by `to`, the occurrences
/// taken from left to right without overlap. An empty `from` occurs before
/// each character and at the end.
pub open spec fn replaced(text: Seq<char>, from: Seq<char>, to: Seq<char>) -> Seq<char>
    decreases text.len(),
{
    if text.len() == 0 {
        if from.len() == 0 {
            to
        } else {
            text
        }
    } else if from.len() == 0 {
        to + seq![text[0]] + replaced(text.skip(1), from, to)
    } else if from.len() <= text.len() && text.take(from.len() as int) == from {
        to + replaced(text.skip(from.len() as int), from, to)
    } else {
        seq![text[0]] + replaced(text.skip(1), from, to)
    }
}

/// `text` after the substitution of each pair, one after the other.
pub open spec fn rewritten(text: Seq<char>, links: Seq<(Seq<char>, Seq<char>)>) -> Seq<char>
    decreases links.len(),
{
    if links.len() == 0 {
        text
    } else {
        replaced(rewritten(text, links.drop_last()), links.last().0, links.last().1)
    }
}

/// The text of the new message of the privileged path.
pub open spec fn repost_text(ctx: ContextView) -> Seq<char> {
    display_name_spec(ctx.author) + ": "@ + rewritten(ctx.text, ctx.links)
}

/// One button for each pair whose cleaned link parses as a URL, in the pairs'
/// order, numbered from one without a gap.
pub open spec fn buttons_for(links: Seq<(Seq<char>, Seq<char>)>) -> Seq<ButtonView>
    decreases links.len(),
{
    if links.len() == 0 {
        Seq::empty()
    } else {
        let rest = buttons_for(links.drop_last());
        if parsed_url(links.last().1).is_some() {
            rest.push(ButtonView { number: rest.len() + 1, target: links.last().1 })
        } else {
            rest
        }
    }
}

/// The unprivileged path: a reply with the buttons, or the end where no
/// button is left.
pub open spec fn unprivileged_spec(ctx: ContextView) -> (State, ActionView) {
    if buttons_for(ctx.links).len() == 0 {
        (State::Done, ActionView::Stop)
    } else {
        (State::Replying, ActionView::SendReply(buttons_for(ctx.links)))
    }
}

/// The next state and the action to take, for each state and event.
pub open spec fn step_spec(state: State, event: Event, ctx: ContextView) -> (State, ActionView) {
    match (state, event) {
        (State::Start, Event::Received) => if ctx.links.len() == 0 {
            (State::Done, ActionView::Stop)
        } else {
            (State::QueryingPermission, ActionView::QueryPermission)
        },
        (State::QueryingPermission, Event::PermissionAnswered(answer)) => match permission_of(
            answer,
        ) {
            PermissionLevel::Privileged => (State::Deleting, ActionView::DeleteOriginal),
            PermissionLevel::Unprivileged => unprivileged_spec(ctx),
        },
        (State::Deleting, Event::Deleted(done)) => if done {
            (State::Reposting, ActionView::SendMessage(repost_text(ctx)))
        } else {
            unprivileged_spec(ctx)
        },
        (State::Reposting, Event::Sent(done)) => if done {
            (State::Done, ActionView::Stop)
        } else {
            (State::Done, ActionView::Fail)
        },
        (State::Replying, Event::Sent(done)) => if done {
            (State::Done, ActionView::Stop)
        } else {
            (State::Done, ActionView::Fail)
        },
        _ => (state, ActionView::Ignore),
    }
}

/// Calls `str::replace`. Trusted: every occurrence of `from` in `text`, taken
/// from left to right without overlap, gives way to `to`.
#[verifier::external_body]
fn replace_all(text: &str, from: &str, to: &str) -> (r: String)
    ensures
        r@ == replaced(text@, from@, to@),
{
    text.replace(from, to)
}

/// Reads a membership answer; a failed query counts as unprivileged.
pub fn permission_level(answer: Option<bool>) -> (level: PermissionLevel)
    ensures
        level == permission_of(answer),
{
    match answer {
        Some(true) => PermissionLevel::Privileged,
        _ => PermissionLevel::Unprivileged,
    }
}

/// The name to show for the author of a message.
pub fn display_name(author: &Option<Author>) -> (name: String)
    ensures
        name@ == display_name_spec(
            match author {
                Some(a) => Some(a@),
                None => None,
            },
        ),
{
    match author {
        None => String::from_str(UNKNOWN_AUTHOR),
        Some(a) => match &a.username {
            Some(u) => u.clone(),
            None => a.first_name.clone(),
        },
    }
}

/// Substitutes each pair in `text`, in the pairs' order.
pub fn rewrite_text(text: &str, links: &Vec<(String, String)>) -> (out: String)
    ensures
        out@ == rewritten(text@, pair_views(links@)),
{
    let mut out = String::from_str(text);
    let mut i: usize = 0;
    assert(pair_views(links@).take(0) =~= Seq::empty());
    while i < links.len()
        invariant
            i <= links.len(),
            out@ == rewritten(text@, pair_views(links@).take(i as int)),
        decreases links.len() - i,
    {
        let ghost all = pair_views(links@);
        assert(all.take(i + 1).drop_last() =~= all.take(i as int));
        assert(all.take(i + 1).last() == (links@[i as int].0@, links@[i as int].1@));
        out = replace_all(out.as_str(), links[i].0.as_str(), links[i].1.as_str());
        i = i + 1;
    }
    assert(pair_views(links@).take(i as int) =~= pair_views(links@));
    out
}

/// The text of the privileged path's new message: the author's name, a
/// colon and a space, and the rewritten text.
pub fn compose_repost(ctx: &Context) -> (text: String)
    ensures
        text@ == repost_text(ctx@),
{
    let mut text = display_name(&ctx.author);
    text.append(": ");
    let body = rewrite_text(ctx.text.as_str(), &ctx.links);
    text.append(body.as_str());
    text
}

/// Builds the buttons of the reply: one for each cleaned link that parses as
/// a URL, numbered from one. A link that does not parse is passed over.
pub fn build_buttons(links: &Vec<(String, String)>) -> (buttons: Vec<Button>)
    ensures
        button_views(buttons@) == buttons_for(pair_views(links@)),
{
    let mut buttons: Vec<Button> = Vec::new();
    let mut i: usize = 0;
    assert(pair_views(links@).take(0) =~= Seq::empty());
    assert(button_views(buttons@) =~= Seq::empty());
    while i < links.len()
        invariant
            i <= links.len(),
            buttons@.len() <= i,
            button_views(buttons@) == buttons_for(pair_views(links@).take(i as int)),
        decreases links.len() - i,
    {
        let ghost all = pair_views(links@);
        assert(all.take(i + 1).drop_last() =~= all.take(i as int));
        assert(all.take(i + 1).last() == (links@[i as int].0@, links@[i as int].1@));
        if split_url(links[i].1.as_str()).is_some() {
            let ghost before = button_views(buttons@);
            let button = Button { number: buttons.len() + 1, target: links[i].1.clone() };
            buttons.push(button);
            assert(button_views(buttons@) =~= before.push(button@));
        }
        i = i + 1;
    }
    assert(pair_views(links@).take(i as int) =~= pair_views(links@));
    buttons
}

/// Takes the unprivileged path.
pub fn unprivileged_path(ctx: &Context) -> (r: (State, Action))
    ensures
        (r.0, r.1@) == unprivileged_spec(ctx@),
{
    let buttons = build_buttons(&ctx.links);
    if buttons.len() == 0 {
        (State::Done, Action::Stop)
    } else {
        (State::Replying, Action::SendReply(buttons))
    }
}

/// Opens the flow for a message: finds its links that need cleaning.
pub fn open_context(text: String, author: Option<Author>) -> (ctx: Context)
    ensures
        ctx.text == text,
        ctx.author == author,
        ctx@.links == extract_music_links_spec(text@),
{
    let links = extract_music_links(text.as_str());
    Context { text, author, links }
}

/// Moves the flow on by one event: says which state comes next and what the
/// caller is to do.
pub fn step(state: State, event: Event, ctx: &Context) -> (r: (State, Action))
    ensures
        (r.0, r.1@) == step_spec(state, event, ctx@),
{
    match (state, event) {
        (State::Start, Event::Received) => {
            if ctx.links.len() == 0 {
                (State::Done, Action::Stop)
            } else {
                (State::QueryingPermission, Action::QueryPermission)
            }
        },
        (State::QueryingPermission, Event::PermissionAnswered(answer)) => {
            match permission_level(answer) {
                PermissionLevel::Privileged => (State::Deleting, Action::DeleteOriginal),
                PermissionLevel::Unprivileged => unprivileged_path(ctx),
            }
        },
        (State::Deleting, Event::Deleted(done)) => {
            if done {
                (State::Reposting, Action::SendMessage(compose_repost(ctx)))
            } else {
                unprivileged_path(ctx)
            }
        },
        (State::Reposting, Event::Sent(done)) => {
            if done {
                (State::Done, Action::Stop)
            } else {
                (State::Done, Action::Fail)
            }
        },
        (State::Replying, Event::Sent(done)) => {
            if done {
                (State::Done, Action::Stop)
            } else {
                (State::Done, Action::Fail)
            }
        },
        _ => (state, Action::Ignore),
    }
}

/// A failed deletion leads where an unprivileged answer leads, and where a
/// failed membership query leads: to the same reply, or to the same silent
/// end. It never asks for the privileged path's message.
pub proof fn deletion_failure_falls_back(ctx: ContextView)
    ensures
        step_spec(State::Deleting, Event::Deleted(false), ctx) == unprivileged_spec(ctx),
        step_spec(State::QueryingPermission, Event::PermissionAnswered(Some(false)), ctx)
            == unprivileged_spec(ctx),
        step_spec(State::QueryingPermission, Event::PermissionAnswered(None), ctx)
            == unprivileged_spec(ctx),
        unprivileged_spec(ctx).0 == State::Done || unprivileged_spec(ctx).0 == State::Replying,
        unprivileged_spec(ctx).1 is Stop || unprivileged_spec(ctx).1 is SendReply,
{
}

/// Where no cleaned link parses as a URL there is no button.
pub proof fn no_buttons_without_valid_links(links: Seq<(Seq<char>, Seq<char>)>)
    requires
        forall|i: int| 0 <= i < links.len() ==> parsed_url((#[trigger] links[i]).1).is_none(),
    ensures
        buttons_for(links).len() == 0,
    decreases links.len(),
{
    if links.len() > 0 {
        no_buttons_without_valid_links(links.drop_last());
    }
}

/// Where no cleaned link parses as a URL, the unprivileged path ends without
/// sending anything.
pub proof fn silent_without_valid_links(ctx: ContextView)
    requires
        forall|i: int|
            0 <= i < ctx.links.len() ==> parsed_url((#[trigger] ctx.links[i]).1).is_none(),
    ensures
        unprivileged_spec(ctx) == (State::Done, ActionView::Stop),
{
    no_buttons_without_valid_links(ctx.links);
}

/// The flow asks for at most one send: after a send's answer it is done.
pub proof fn send_ends_the_flow(state: State, sent: bool, ctx: ContextView)
    requires
        state == State::Reposting || state == State::Replying,
    ensures
        step_spec(state, Event::Sent(sent), ctx).0 == State::Done,
        step_spec(state, Event::Sent(sent), ctx).1 == if sent {
            ActionView::Stop
        } else {
            ActionView::Fail
        },
{
}

} // verus!
