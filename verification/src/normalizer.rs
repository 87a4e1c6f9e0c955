//! Removes the tracking parameter from one link.

use url::Url;
use vstd::prelude::*;

verus! {

/// The query key that is removed.
pub const TRACKING_KEY: &'static str = "si";

/// The host of the video service's short links.
pub const SHORT_LINK_HOST: &'static str = "youtu.be";

/// The longest link, query or path, in characters, that is written back into
/// a URL. The URL type counts its text in 32 bits; under this limit no edit
/// can outgrow them.
pub const MAX_PART_CHARS: usize = 0x100_0000;

/// What the normaliser reads of a parsed URL.
pub struct UrlParts {
    /// The URL as the parser writes it back.
    pub serialization: String,
    /// The decoded key/value pairs of the query, in order, where the URL carries a query.
    pub query: Option<Vec<(String, String)>>,
    /// The host, where the URL has one.
    pub host: Option<String>,
    /// The path.
    pub path: String,
}

/// The parts of a URL as sequences of characters.
pub struct UrlPartsView {
    pub serialization: Seq<char>,
    pub query: Option<Seq<(Seq<char>, Seq<char>)>>,
    pub host: Option<Seq<char>>,
    pub path: Seq<char>,
}

/// The views of a sequence of key/value pairs.
pub open spec fn pair_views(pairs: Seq<(String, String)>) -> Seq<(Seq<char>, Seq<char>)> {
    Seq::new(pairs.len(), |i: int| (pairs[i].0@, pairs[i].1@))
}

impl View for UrlParts {
    type V = UrlPartsView;

    open spec fn view(&self) -> UrlPartsView {
        UrlPartsView {
            serialization: self.serialization@,
            query: match self.query {
                Some(pairs) => Some(pair_views(pairs@)),
                None => None,
            },
            host: match self.host {
                Some(h) => Some(h@),
                None => None,
            },
            path: self.path@,
        }
    }
}

/// What is done to the query of a URL.
pub enum QueryEdit {
    /// The URL carries no query and gets none.
    Keep,
    /// The query is taken away, with its question mark.
    Remove,
    /// The query is replaced by this text.
    Replace(String),
}

/// A query edit as a sequence of characters.
pub enum QueryEditView {
    Keep,
    Remove,
    Replace(Seq<char>),
}

impl View for QueryEdit {
    type V = QueryEditView;

    open spec fn view(&self) -> QueryEditView {
        match self {
            QueryEdit::Keep => QueryEditView::Keep,
            QueryEdit::Remove => QueryEditView::Remove,
            QueryEdit::Replace(q) => QueryEditView::Replace(q@),
        }
    }
}

/// The changes that cleaning makes to one parsed URL.
pub struct Edit {
    pub query: QueryEdit,
    /// The new path, where the path is cut.
    pub path: Option<String>,
}

/// An edit as sequences of characters.
pub struct EditView {
    pub query: QueryEditView,
    pub path: Option<Seq<char>>,
}

impl View for Edit {
    type V = EditView;

    open spec fn view(&self) -> EditView {
        EditView {
            query: self.query@,
            path: match self.path {
                Some(p) => Some(p@),
                None => None,
            },
        }
    }
}

/// What the URL parser reads out of `raw`: `None` where `raw` is no URL.
pub uninterp spec fn parsed_url(raw: Seq<char>) -> Option<UrlPartsView>;

/// The URL `raw` written back after its query was cleared and then set to
/// `query`; `None` where `raw` is no URL.
pub uninterp spec fn requeried(raw: Seq<char>, query: Option<Seq<char>>) -> Option<Seq<char>>;

/// The URL `raw` written back after its path was set to `path`; `None` where
/// `raw` is no URL.
pub uninterp spec fn repathed(raw: Seq<char>, path: Seq<char>) -> Option<Seq<char>>;

/// The URL `raw` written back after its query was cleared and set to `query`
/// and its path was then set to `path`; `None` where `raw` is no URL.
pub uninterp spec fn requeried_and_repathed(
    raw: Seq<char>,
    query: Option<Seq<char>>,
    path: Seq<char>,
) -> Option<Seq<char>>;

/// The pairs that stay: all but those whose key is the tracking key, in their order.
pub open spec fn kept_pairs(pairs: Seq<(Seq<char>, Seq<char>)>) -> Seq<(Seq<char>, Seq<char>)>
    decreases pairs.len(),
{
    if pairs.len() == 0 {
        Seq::empty()
    } else if pairs.last().0 == TRACKING_KEY@ {
        kept_pairs(pairs.drop_last())
    } else {
        kept_pairs(pairs.drop_last()).push(pairs.last())
    }
}

/// The pairs written as `key=value` and joined by `&`.
pub open spec fn joined(pairs: Seq<(Seq<char>, Seq<char>)>) -> Seq<char>
    decreases pairs.len(),
{
    if pairs.len() == 0 {
        Seq::empty()
    } else if pairs.len() == 1 {
        pairs[0].0 + "="@ + pairs[0].1
    } else {
        joined(pairs.drop_last()) + "&"@ + pairs.last().0 + "="@ + pairs.last().1
    }
}

/// Whether the three characters `si=` stand at position `i` of `s`.
pub open spec fn marker_at(s: Seq<char>, i: int) -> bool {
    0 <= i && i + 3 <= s.len() && s[i] == 's' && s[i + 1] == 'i' && s[i + 2] == '='
}

/// Whether `s` holds `si=` somewhere.
pub open spec fn has_marker(s: Seq<char>) -> bool {
    exists|i: int| marker_at(s, i)
}

/// Whether `i` is the place of the first `si=` in `s`.
pub open spec fn is_first_marker(s: Seq<char>, i: int) -> bool {
    marker_at(s, i) && forall|j: int| 0 <= j < i ==> !marker_at(s, j)
}

/// Where `s` is cut: at its first `si=`, or at its end where it has none.
pub open spec fn cut_point(s: Seq<char>) -> int {
    if has_marker(s) {
        choose|i: int| is_first_marker(s, i)
    } else {
        s.len() as int
    }
}

/// `s` without the question marks at its end.
pub open spec fn trimmed(s: Seq<char>) -> Seq<char>
    decreases s.len(),
{
    if s.len() > 0 && s.last() == '?' {
        trimmed(s.drop_last())
    } else {
        s
    }
}

/// The path cut before its first `si=`, and without a question mark left at the end.
pub open spec fn truncated(path: Seq<char>) -> Seq<char> {
    trimmed(path.take(cut_point(path)))
}

/// The edit that cleaning asks for, given what the parser read.
pub open spec fn planned(parts: UrlPartsView) -> EditView {
    EditView {
        query: match parts.query {
            None => QueryEditView::Keep,
            Some(pairs) => if kept_pairs(pairs).len() == 0 {
                QueryEditView::Remove
            } else {
                QueryEditView::Replace(joined(kept_pairs(pairs)))
            },
        },
        path: if parts.host == Some(SHORT_LINK_HOST@) && has_marker(parts.path) {
            Some(truncated(parts.path))
        } else {
            None
        },
    }
}

/// The URL `raw`, whose parts were read as `parts`, after `edit`.
pub open spec fn applied(raw: Seq<char>, parts: UrlPartsView, edit: EditView) -> Seq<char> {
    let written = match edit.query {
        QueryEditView::Keep => match edit.path {
            None => Some(parts.serialization),
            Some(p) => repathed(raw, p),
        },
        QueryEditView::Remove => match edit.path {
            None => requeried(raw, None),
            Some(p) => requeried_and_repathed(raw, None, p),
        },
        QueryEditView::Replace(q) => match edit.path {
            None => requeried(raw, Some(q)),
            Some(p) => requeried_and_repathed(raw, Some(q), p),
        },
    };
    match written {
        Some(s) => s,
        None => raw,
    }
}

/// Whether the link and the parts that `edit` writes are short enough to be
/// written back.
pub open spec fn within_limits(raw: Seq<char>, edit: EditView) -> bool {
    &&& raw.len() <= MAX_PART_CHARS
    &&& edit.query matches QueryEditView::Replace(q) ==> q.len() <= MAX_PART_CHARS
    &&& edit.path matches Some(p) ==> p.len() <= MAX_PART_CHARS
}

/// The cleaned form of `raw`: `raw` itself where it is no URL or is too long
/// to be written back, and else the URL written back after the planned edit.
pub open spec fn remove_si_parameter_spec(raw: Seq<char>) -> Seq<char> {
    match parsed_url(raw) {
        None => raw,
        Some(parts) => if within_limits(raw, planned(parts)) {
            applied(raw, parts, planned(parts))
        } else {
            raw
        },
    }
}

/// The view of an optional string slice.
pub open spec fn option_text(s: Option<&str>) -> Option<Seq<char>> {
    match s {
        Some(t) => Some(t@),
        None => None,
    }
}

/// Calls `Url::parse` and copies out what `Url::query`, `Url::query_pairs`,
/// `Url::host_str`, `Url::path` and the URL's `to_string` give. Trusted: the
/// answer is `None` exactly where parsing fails, and else holds those values.
#[verifier::external_body]
pub(crate) fn split_url(raw: &str) -> (r: Option<UrlParts>)
    ensures
        r.is_some() == parsed_url(raw@).is_some(),
        r matches Some(parts) ==> parsed_url(raw@) == Some(parts@),
{
    match Url::parse(raw) {
        Ok(u) => Some(UrlParts {
            serialization: u.to_string(),
            query: u.query().map(|_| u.query_pairs().map(|(k, v)| (k.to_string(), v.to_string())).collect()),
            host: u.host_str().map(|h| h.to_string()),
            path: u.path().to_string(),
        }),
        Err(_) => None,
    }
}

/// Calls `Url::parse`, then `Url::set_query` with no query and again with
/// `query`, and writes the URL back. Trusted: the answer is what these calls
/// give, `None` exactly where parsing fails. The setter stops the program
/// where the URL outgrows 32 bits, which the length limits rule out.
#[verifier::external_body]
fn requery(raw: &str, query: Option<&str>) -> (r: Option<String>)
    requires
        raw@.len() <= MAX_PART_CHARS,
        query matches Some(q) ==> q@.len() <= MAX_PART_CHARS,
    ensures
        r.is_some() == parsed_url(raw@).is_some(),
        r.is_some() == requeried(raw@, option_text(query)).is_some(),
        r matches Some(s) ==> requeried(raw@, option_text(query)) == Some(s@),
{
    match Url::parse(raw) {
        Ok(mut u) => {
            u.set_query(None);
            u.set_query(query);
            Some(u.to_string())
        },
        Err(_) => None,
    }
}

/// Calls `Url::parse`, then `Url::set_path` with `path`, and writes the URL
/// back. Trusted: the answer is what these calls give, `None` exactly where
/// parsing fails. The setter stops the program where the URL outgrows 32
/// bits, which the length limits rule out.
#[verifier::external_body]
fn repath(raw: &str, path: &str) -> (r: Option<String>)
    requires
        raw@.len() <= MAX_PART_CHARS,
        path@.len() <= MAX_PART_CHARS,
    ensures
        r.is_some() == parsed_url(raw@).is_some(),
        r.is_some() == repathed(raw@, path@).is_some(),
        r matches Some(s) ==> repathed(raw@, path@) == Some(s@),
{
    match Url::parse(raw) {
        Ok(mut u) => {
            u.set_path(path);
            Some(u.to_string())
        },
        Err(_) => None,
    }
}

/// Calls `Url::parse`, then `Url::set_query` with no query and again with
/// `query`, then `Url::set_path` with `path`, and writes the URL back.
/// Trusted: the answer is what these calls give, `None` exactly where parsing
/// fails. The setters stop the program where the URL outgrows 32 bits, which
/// the length limits rule out.
#[verifier::external_body]
fn requery_and_repath(raw: &str, query: Option<&str>, path: &str) -> (r: Option<String>)
    requires
        raw@.len() <= MAX_PART_CHARS,
        query matches Some(q) ==> q@.len() <= MAX_PART_CHARS,
        path@.len() <= MAX_PART_CHARS,
    ensures
        r.is_some() == parsed_url(raw@).is_some(),
        r.is_some() == requeried_and_repathed(raw@, option_text(query), path@).is_some(),
        r matches Some(s) ==> requeried_and_repathed(raw@, option_text(query), path@) == Some(s@),
{
    match Url::parse(raw) {
        Ok(mut u) => {
            u.set_query(None);
            u.set_query(query);
            u.set_path(path);
            Some(u.to_string())
        },
        Err(_) => None,
    }
}

/// Drops every pair whose key is the tracking key and keeps the others in order.
pub fn strip_tracking(pairs: &Vec<(String, String)>) -> (kept: Vec<(String, String)>)
    ensures
        pair_views(kept@) == kept_pairs(pair_views(pairs@)),
{
    let tracking = String::from_str(TRACKING_KEY);
    let mut kept: Vec<(String, String)> = Vec::new();
    let mut i: usize = 0;
    assert(pair_views(pairs@).take(0) =~= Seq::empty());
    assert(pair_views(kept@) =~= Seq::empty());
    while i < pairs.len()
        invariant
            i <= pairs.len(),
            tracking@ == TRACKING_KEY@,
            pair_views(kept@) == kept_pairs(pair_views(pairs@).take(i as int)),
        decreases pairs.len() - i,
    {
        let ghost all = pair_views(pairs@);
        assert(all.take(i + 1).drop_last() =~= all.take(i as int));
        assert(all.take(i + 1).last() == (pairs@[i as int].0@, pairs@[i as int].1@));
        if pairs[i].0 != tracking {
            let ghost before = pair_views(kept@);
            let key = pairs[i].0.clone();
            let value = pairs[i].1.clone();
            kept.push((key, value));
            assert(pair_views(kept@) =~= before.push(all.take(i + 1).last()));
        }
        i = i + 1;
    }
    assert(pair_views(pairs@).take(i as int) =~= pair_views(pairs@));
    kept
}

/// Writes the pairs as `key=value`, joined by `&`.
pub fn join_query(pairs: &Vec<(String, String)>) -> (query: String)
    ensures
        query@ == joined(pair_views(pairs@)),
{
    let mut query = String::new();
    let mut i: usize = 0;
    assert(pair_views(pairs@).take(0) =~= Seq::empty());
    while i < pairs.len()
        invariant
            i <= pairs.len(),
            query@ == joined(pair_views(pairs@).take(i as int)),
        decreases pairs.len() - i,
    {
        let ghost all = pair_views(pairs@);
        assert(all.take(i + 1).drop_last() =~= all.take(i as int));
        assert(all.take(i + 1).last() == (pairs@[i as int].0@, pairs@[i as int].1@));
        if i > 0 {
            query.append("&");
        } else {
            assert(all.take(0).len() == 0);
            assert(query@ =~= Seq::empty());
        }
        query.append(pairs[i].0.as_str());
        query.append("=");
        query.append(pairs[i].1.as_str());
        assert(query@ =~= joined(all.take(i + 1)));
        i = i + 1;
    }
    assert(pair_views(pairs@).take(i as int) =~= pair_views(pairs@));
    query
}

/// Reads the character at place `i`. For text known to be ASCII this takes
/// one step; otherwise the text is walked from its start.
fn char_at(text: &str, ascii: bool, i: usize) -> (c: char)
    requires
        i < text@.len(),
        ascii ==> text.is_ascii(),
    ensures
        c == text@[i as int],
{
    if ascii {
        let b = text.get_ascii(i);
        assert('\0' <= text@[i as int] <= '\u{7f}');
        b as char
    } else {
        text.get_char(i)
    }
}

/// Finds the first `si=` in `path`.
pub fn find_marker(path: &str) -> (r: Option<usize>)
    ensures
        r.is_some() == has_marker(path@),
        r matches Some(i) ==> is_first_marker(path@, i as int) && i as int == cut_point(path@),
{
    let ascii = path.is_ascii();
    let n = path.unicode_len();
    let mut i: usize = 0;
    while i < n && n - i >= 3
        invariant
            n == path@.len(),
            ascii ==> path.is_ascii(),
            i <= n,
            forall|j: int| 0 <= j < i ==> !marker_at(path@, j),
        decreases n - i,
    {
        if char_at(path, ascii, i) == 's' && char_at(path, ascii, i + 1) == 'i' && char_at(
            path,
            ascii,
            i + 2,
        ) == '=' {
            assert(is_first_marker(path@, i as int));
            return Some(i);
        }
        i = i + 1;
    }
    assert(forall|j: int| !marker_at(path@, j));
    None
}

/// Cuts `path` before its first `si=` and trims the question marks left at the end.
pub fn truncate_tracking(path: &str) -> (r: String)
    ensures
        r@ == truncated(path@),
{
    let ascii = path.is_ascii();
    let cut = match find_marker(path) {
        Some(i) => i,
        None => path.unicode_len(),
    };
    let mut end = cut;
    while end > 0 && char_at(path, ascii, end - 1) == '?'
        invariant
            end <= cut <= path@.len(),
            ascii ==> path.is_ascii(),
            trimmed(path@.take(cut as int)) == trimmed(path@.take(end as int)),
        decreases end,
    {
        assert(path@.take(end as int).drop_last() =~= path@.take(end - 1));
        end = end - 1;
    }
    String::from_str(path.substring_char(0, end))
}

/// Decides what cleaning changes in a parsed URL: which query it gets, and
/// whether its path is cut.
pub fn plan_cleaning(parts: &UrlParts) -> (edit: Edit)
    ensures
        edit@ == planned(parts@),
{
    let query = match &parts.query {
        None => QueryEdit::Keep,
        Some(pairs) => {
            let kept = strip_tracking(pairs);
            if kept.len() == 0 {
                QueryEdit::Remove
            } else {
                QueryEdit::Replace(join_query(&kept))
            }
        },
    };
    let short = String::from_str(SHORT_LINK_HOST);
    let on_short_host = match &parts.host {
        Some(h) => *h == short,
        None => false,
    };
    let path = if on_short_host && find_marker(parts.path.as_str()).is_some() {
        Some(truncate_tracking(parts.path.as_str()))
    } else {
        None
    };
    Edit { query, path }
}

/// Tells whether `edit` can be written back into the link `url_str`.
pub fn fits(url_str: &str, edit: &Edit) -> (r: bool)
    ensures
        r == within_limits(url_str@, edit@),
{
    if url_str.unicode_len() > MAX_PART_CHARS {
        return false;
    }
    let query_fits = match &edit.query {
        QueryEdit::Replace(q) => q.as_str().unicode_len() <= MAX_PART_CHARS,
        _ => true,
    };
    let path_fits = match &edit.path {
        Some(p) => p.as_str().unicode_len() <= MAX_PART_CHARS,
        None => true,
    };
    query_fits && path_fits
}

/// Writes the link `url_str`, whose parts were read as `parts`, back with the
/// changes of `edit`.
pub fn apply_edit(url_str: &str, parts: &UrlParts, edit: &Edit) -> (written: String)
    requires
        within_limits(url_str@, edit@),
    ensures
        written@ == applied(url_str@, parts@, edit@),
{
    let written = match (&edit.query, &edit.path) {
        (QueryEdit::Keep, None) => Some(parts.serialization.clone()),
        (QueryEdit::Keep, Some(p)) => repath(url_str, p.as_str()),
        (QueryEdit::Remove, None) => requery(url_str, None),
        (QueryEdit::Remove, Some(p)) => requery_and_repath(url_str, None, p.as_str()),
        (QueryEdit::Replace(q), None) => requery(url_str, Some(q.as_str())),
        (QueryEdit::Replace(q), Some(p)) => requery_and_repath(
            url_str,
            Some(q.as_str()),
            p.as_str(),
        ),
    };
    match written {
        Some(s) => s,
        None => String::from_str(url_str),
    }
}

/// Cleans one link: the tracking parameter leaves the query, and on the
/// short-link host a tracking token in the path is cut off. Text that is no
/// URL comes back unchanged, and so does a link too long to be written back.
pub fn remove_si_parameter(url_str: &str) -> (cleaned: String)
    ensures
        cleaned@ == remove_si_parameter_spec(url_str@),
{
    let parts = match split_url(url_str) {
        Some(parts) => parts,
        None => { return String::from_str(url_str); },
    };
    let edit = plan_cleaning(&parts);
    if fits(url_str, &edit) {
        apply_edit(url_str, &parts, &edit)
    } else {
        String::from_str(url_str)
    }
}

/// Text that is no URL is left as it is.
pub proof fn unparsed_text_stays(raw: Seq<char>)
    requires
        parsed_url(raw).is_none(),
    ensures
        remove_si_parameter_spec(raw) == raw,
{
}

/// Whether `raw` is a URL in the parser's own spelling, without a query and
/// without a tracking token in a short-link path.
pub open spec fn is_plain_url(raw: Seq<char>) -> bool {
    match parsed_url(raw) {
        None => false,
        Some(parts) => parts.serialization == raw && parts.query.is_none() && !(parts.host == Some(
            SHORT_LINK_HOST@,
        ) && has_marker(parts.path)),
    }
}

/// A plain URL is left as it is.
pub proof fn plain_url_stays(raw: Seq<char>)
    requires
        is_plain_url(raw),
    ensures
        remove_si_parameter_spec(raw) == raw,
{
}

/// Cleaning a second time changes nothing more, where the first cleaning gave
/// text that is no URL or a plain URL.
pub proof fn cleaning_twice_changes_nothing_more(raw: Seq<char>)
    requires
        parsed_url(remove_si_parameter_spec(raw)).is_none() || is_plain_url(
            remove_si_parameter_spec(raw),
        ),
    ensures
        remove_si_parameter_spec(remove_si_parameter_spec(raw)) == remove_si_parameter_spec(raw),
{
}

/// No kept pair has the tracking key, and every kept pair was among the pairs.
pub proof fn kept_pairs_hold_no_tracking_key(pairs: Seq<(Seq<char>, Seq<char>)>)
    ensures
        kept_pairs(pairs).len() <= pairs.len(),
        forall|i: int|
            0 <= i < kept_pairs(pairs).len() ==> (#[trigger] kept_pairs(pairs)[i]).0
                != TRACKING_KEY@ && pairs.contains(kept_pairs(pairs)[i]),
    decreases pairs.len(),
{
    if pairs.len() > 0 {
        let rest = pairs.drop_last();
        kept_pairs_hold_no_tracking_key(rest);
        assert forall|i: int| 0 <= i < kept_pairs(pairs).len() implies (#[trigger] kept_pairs(
            pairs,
        )[i]).0 != TRACKING_KEY@ && pairs.contains(kept_pairs(pairs)[i]) by {
            if i < kept_pairs(rest).len() {
                let kept = kept_pairs(rest)[i];
                assert(kept_pairs(pairs)[i] == kept);
                let k = choose|k: int| 0 <= k < rest.len() && rest[k] == kept;
                assert(pairs[k] == kept);
            } else {
                assert(pairs[pairs.len() - 1] == pairs.last());
            }
        }
    }
}

/// Pairs without the tracking key all stay, in their order.
pub proof fn clean_pairs_stay(pairs: Seq<(Seq<char>, Seq<char>)>)
    requires
        forall|i: int| 0 <= i < pairs.len() ==> (#[trigger] pairs[i]).0 != TRACKING_KEY@,
    ensures
        kept_pairs(pairs) == pairs,
    decreases pairs.len(),
{
    if pairs.len() > 0 {
        clean_pairs_stay(pairs.drop_last());
        assert(pairs.drop_last().push(pairs.last()) =~= pairs);
    }
}

/// A query without the tracking key is written back with every pair, in order.
pub proof fn untracked_query_keeps_every_pair(parts: UrlPartsView)
    requires
        parts.query matches Some(pairs) && pairs.len() > 0 && forall|i: int|
            0 <= i < pairs.len() ==> (#[trigger] pairs[i]).0 != TRACKING_KEY@,
    ensures
        planned(parts).query == QueryEditView::Replace(joined(parts.query.unwrap())),
{
    clean_pairs_stay(parts.query.unwrap());
}

/// A query that holds nothing but tracking pairs is taken away whole.
pub proof fn tracking_only_query_is_removed(parts: UrlPartsView)
    requires
        parts.query matches Some(pairs) && forall|i: int|
            0 <= i < pairs.len() ==> (#[trigger] pairs[i]).0 == TRACKING_KEY@,
    ensures
        planned(parts).query == QueryEditView::Remove,
{
    kept_pairs_hold_no_tracking_key(parts.query.unwrap());
    let pairs = parts.query.unwrap();
    if kept_pairs(pairs).len() > 0 {
        let kept = kept_pairs(pairs)[0];
        assert(pairs.contains(kept));
    }
}

/// Dropping the tracking pairs a second time drops nothing more.
pub proof fn stripping_is_idempotent(pairs: Seq<(Seq<char>, Seq<char>)>)
    ensures
        kept_pairs(kept_pairs(pairs)) == kept_pairs(pairs),
{
    kept_pairs_hold_no_tracking_key(pairs);
    clean_pairs_stay(kept_pairs(pairs));
}

/// Trimming leaves a prefix that does not end in a question mark.
pub proof fn trimmed_is_prefix(s: Seq<char>)
    ensures
        trimmed(s).len() <= s.len(),
        trimmed(s) == s.take(trimmed(s).len() as int),
        trimmed(s).len() > 0 ==> trimmed(s).last() != '?',
    decreases s.len(),
{
    if s.len() > 0 && s.last() == '?' {
        trimmed_is_prefix(s.drop_last());
        assert(s.drop_last().take(trimmed(s).len() as int) =~= s.take(trimmed(s).len() as int));
    } else {
        assert(s.take(s.len() as int) =~= s);
    }
}

/// A cut path holds no tracking token, so cutting it again changes nothing.
pub proof fn truncation_is_idempotent(path: Seq<char>)
    ensures
        !has_marker(truncated(path)),
        truncated(truncated(path)) == truncated(path),
{
    let cut = cut_point(path);
    if has_marker(path) {
        let w = choose|i: int| marker_at(path, i);
        first_marker_exists(path, w);
    }
    assert(0 <= cut <= path.len());
    assert(forall|j: int| 0 <= j < cut ==> !marker_at(path, j));
    let head = path.take(cut);
    trimmed_is_prefix(head);
    let out = truncated(path);
    assert forall|j: int| !marker_at(out, j) by {
        if marker_at(out, j) {
            assert(out[j] == head[j] && out[j + 1] == head[j + 1] && out[j + 2] == head[j + 2]);
            assert(marker_at(path, j));
        }
    }
    assert(out.take(out.len() as int) =~= out);
    trimmed_settles(out);
}

/// Some place is the first at which `si=` stands, where it stands at `i`.
pub proof fn first_marker_exists(s: Seq<char>, i: int)
    requires
        marker_at(s, i),
    ensures
        exists|k: int| is_first_marker(s, k),
        is_first_marker(s, cut_point(s)),
        0 <= cut_point(s) <= i,
    decreases i,
{
    if exists|j: int| 0 <= j < i && marker_at(s, j) {
        let j = choose|j: int| 0 <= j < i && marker_at(s, j);
        first_marker_exists(s, j);
    } else {
        assert(is_first_marker(s, i));
    }
}

/// Text that does not end in a question mark is its own trimmed form.
pub proof fn trimmed_settles(s: Seq<char>)
    requires
        s.len() > 0 ==> s.last() != '?',
    ensures
        trimmed(s) == s,
{
}

} // verus!
