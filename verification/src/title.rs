//! The title of a session.
//!
//! A session gets a title once, when its first message comes: the start of the
//! message at once, and something better later if a model is to write it.
use crate::emit::{envelope, unsent};
use crate::interrupt::{Outgoing, OutgoingView};
use crate::message::{OutputEvent, OutputEventView, TitlePayload, TitlePayloadView};
use crate::text::{
    blank, concat, find, first_line, first_line_of, law_the_first_line,
    lemma_blank_is_trimmed_empty, lemma_find_bounds, take_chars, trim, trim_end, trim_start, trimmed, white_space,
};
use vstd::prelude::*;
use vstd::string::*;

verus! {

/// The title that a message suggests: its first line, cut off with an ellipsis
/// where it is too long.
pub open spec fn placeholder_of(content: Seq<char>, max_len: nat) -> Seq<char> {
    let line = first_line_of(trimmed(content));
    if line.len() > max_len {
        line.take(max_len as int) + "…"@
    } else {
        line
    }
}

/// The title that a message suggests.
pub fn placeholder_title(content: &str, max_len: usize) -> (res: String)
    ensures
        res@ == placeholder_of(content@, max_len as nat),
{
    let line = first_line(trim(content));
    if line.unicode_len() > max_len {
        concat(take_chars(line, max_len), "…")
    } else {
        line.to_owned()
    }
}

proof fn lemma_trim_start_first(s: Seq<char>)
    ensures
        trim_start(s).len() > 0 ==> !white_space(trim_start(s).first()),
    decreases s.len(),
{
    if s.len() > 0 && white_space(s.first()) {
        lemma_trim_start_first(s.drop_first());
    }
}

proof fn lemma_trim_end_first(s: Seq<char>)
    ensures
        trim_end(s).len() > 0 ==> s.len() > 0 && trim_end(s).first() == s.first(),
    decreases s.len(),
{
    if s.len() > 0 && white_space(s.last()) {
        lemma_trim_end_first(s.drop_last());
    }
}

/// A message suggests no title exactly if it is blank. A title is a single line,
/// and no longer than the limit but for the ellipsis.
pub proof fn law_placeholder_is_one_short_line(content: Seq<char>, max_len: nat)
    ensures
        placeholder_of(content, max_len).len() == 0 <==> blank(content),
        placeholder_of(content, max_len).len() <= max_len + 1,
        !placeholder_of(content, max_len).contains('\n'),
{
    reveal_strlit("…");
    let t = trimmed(content);
    let line = first_line_of(t);
    lemma_blank_is_trimmed_empty(content);
    lemma_trim_start_first(content);
    lemma_trim_end_first(trim_start(content));
    lemma_find_bounds(t, '\n');
    if t.len() > 0 {
        assert(!white_space(t[0]));
        assert(find(t, '\n') > 0);
        if find(t, '\n') < t.len() && t[find(t, '\n') - 1] == '\r' {
            assert(find(t, '\n') - 1 > 0);
        }
        assert(line.len() > 0);
    }
    let title = placeholder_of(content, max_len);
    assert forall|i: int| 0 <= i < title.len() implies title[i] != '\n' by {
        if i < line.len() && i < title.len() - 1 {
            assert(title[i] == line[i]);
            assert(line[i] == t[i]);
        } else if line.len() <= max_len {
            assert(title[i] == line[i]);
            assert(line[i] == t[i]);
        }
    }
}

/// Whether the title of a session has been decided on. It is decided on once, and
/// also where the decision is to give none.
#[derive(Clone, Copy, Debug)]
pub struct TitleGate {
    used: bool,
}

impl TitleGate {
    /// Whether the decision has been made.
    pub closed spec fn is_used(&self) -> bool {
        self.used
    }

    /// The decision is open.
    pub fn new() -> (res: TitleGate)
        ensures
            !res.is_used(),
    {
        TitleGate { used: false }
    }

    /// Whether the decision is still to be made. Once it has been made, there is no
    /// need to count messages.
    pub fn is_open(&self) -> (res: bool)
        ensures
            res == !self.is_used(),
    {
        !self.used
    }

    /// Claims the decision, which can be done once.
    pub fn claim(&mut self) -> (res: bool)
        ensures
            res == !old(self).is_used(),
            final(self).is_used(),
    {
        let first = !self.used;
        self.used = true;
        first
    }
}

/// What is done about the title of a session.
pub struct TitlePlan {
    /// The title to store at once.
    pub placeholder: Option<String>,
    /// The message that a model is to write a better title for.
    pub generate_from: Option<String>,
}

/// The mathematical value of a [`TitlePlan`].
#[verifier::ext_equal]
pub struct TitlePlanView {
    pub placeholder: Option<Seq<char>>,
    pub generate_from: Option<Seq<char>>,
}

impl View for TitlePlan {
    type V = TitlePlanView;

    open spec fn view(&self) -> TitlePlanView {
        TitlePlanView {
            placeholder: self.placeholder.deep_view(),
            generate_from: self.generate_from.deep_view(),
        }
    }
}

/// What is done about a title: nothing unless this is the first time, the history
/// holds exactly one message of the user, and its text is at hand. A blank message
/// gives no title of its own. Whether a model is asked is a matter of configuration.
pub open spec fn title_plan(
    first: bool,
    user_count: Option<i64>,
    content: Option<Seq<char>>,
    max_len: nat,
    enabled: bool,
) -> TitlePlanView {
    match content {
        Some(text) if first && user_count == Some(1i64) => TitlePlanView {
            placeholder: if blank(text) {
                None
            } else {
                Some(placeholder_of(text, max_len))
            },
            generate_from: if enabled {
                Some(text)
            } else {
                None
            },
        },
        _ => TitlePlanView { placeholder: None, generate_from: None },
    }
}

/// Decides what is done about the title of a session, given how many messages of
/// the user the history holds (`None` where they could not be counted) and the
/// text of the first of them.
pub fn maybe_spawn_title(
    gate: &mut TitleGate,
    user_count: Option<i64>,
    content: Option<String>,
    max_len: usize,
    enabled: bool,
) -> (res: TitlePlan)
    ensures
        final(gate).is_used(),
        res@ == title_plan(
            !old(gate).is_used(),
            user_count,
            content.deep_view(),
            max_len as nat,
            enabled,
        ),
{
    let nothing = TitlePlan { placeholder: None, generate_from: None };
    if !gate.claim() {
        return nothing;
    }
    match user_count {
        Some(1) => {},
        _ => {
            return nothing;
        },
    }
    match content {
        None => nothing,
        Some(text) => {
            let title = placeholder_title(text.as_str(), max_len);
            proof {
                law_placeholder_is_one_short_line(text@, max_len as nat);
            }
            TitlePlan {
                placeholder: if title.as_str().is_empty() {
                    None
                } else {
                    Some(title)
                },
                generate_from: if enabled {
                    Some(text)
                } else {
                    None
                },
            }
        },
    }
}

/// The notice of a title.
pub open spec fn title_notice(title: Seq<char>) -> OutgoingView {
    OutgoingView::Notice(OutputEventView::Title(unsent(TitlePayloadView { title })))
}

/// Announces a title that has been stored. One that could not be stored is not
/// announced.
pub fn announce_title(title: String, stored: bool) -> (res: Option<Outgoing>)
    ensures
        res.deep_view() == if stored {
            Some(title_notice(title@))
        } else {
            None
        },
{
    if stored {
        Some(Outgoing::Notice(OutputEvent::Title(envelope(TitlePayload { title }))))
    } else {
        None
    }
}

/// Once the decision has been made, nothing is done about the title any more.
pub proof fn law_a_title_is_decided_once(
    user_count: Option<i64>,
    content: Option<Seq<char>>,
    max_len: nat,
    enabled: bool,
)
    ensures
        title_plan(false, user_count, content, max_len, enabled) == (TitlePlanView {
            placeholder: None,
            generate_from: None,
        }),
{
}

/// The title that is stored at once does not depend on whether a model is asked.
pub proof fn law_placeholder_needs_no_model(
    first: bool,
    user_count: Option<i64>,
    content: Option<Seq<char>>,
    max_len: nat,
)
    ensures
        title_plan(first, user_count, content, max_len, true).placeholder == title_plan(
            first,
            user_count,
            content,
            max_len,
            false,
        ).placeholder,
{
}

/// The title that a message suggests is its first line that is not blank, without the
/// white space before it: whole where it is short enough, else its start, as long as it
/// may be, and an ellipsis.
pub proof fn law_the_title_is_the_start_of_the_message(
    before: Seq<char>,
    line: Seq<char>,
    rest: Seq<char>,
    max_len: nat,
)
    requires
        blank(before),
        line.len() > 0,
        !line.contains('\n'),
        !white_space(line.first()),
        !white_space(line.last()),
    ensures
        ({
            let title = placeholder_of(before + line + seq!['\n'] + rest, max_len);
            &&& line.len() <= max_len ==> title == line
            &&& line.len() > max_len ==> title == line.take(max_len as int) + "…"@
            &&& placeholder_of(before + line, max_len) == title
        }),
{
    let text = before + line + seq!['\n'] + rest;
    let n = before.len() as int;
    lemma_starts(text, n);
    let t = text.skip(n);
    assert(t =~= line + seq!['\n'] + rest);
    let m = lemma_end_of(t);
    assert(trimmed(text) == t.take(m));
    assert(m >= line.len()) by {
        if m < line.len() {
            assert(t.skip(m)[line.len() - 1 - m] == line.last());
        }
    }
    assert(line.last() != '\r');
    if m == line.len() {
        assert(t.take(m) =~= line);
        law_the_first_line(line, rest);
    } else {
        let more = rest.take(m - line.len() - 1);
        assert(t.take(m) =~= line + seq!['\n'] + more);
        law_the_first_line(line, more);
    }
    let short = before + line;
    lemma_starts(short, n);
    assert(short.skip(n) =~= line);
    let k = lemma_end_of(line);
    assert(k == line.len()) by {
        if k < line.len() {
            assert(line.skip(k)[line.len() - 1 - k] == line.last());
        }
    }
    assert(line.take(k) =~= line);
    law_the_first_line(line, rest);
}

/// A text whose white space at the start ends at a place.
proof fn lemma_starts(s: Seq<char>, n: int)
    requires
        0 <= n < s.len(),
        forall|i: int| 0 <= i < n ==> white_space(#[trigger] s[i]),
        !white_space(s[n]),
    ensures
        trim_start(s) == s.skip(n),
    decreases n,
{
    if n == 0 {
        assert(s.skip(0) =~= s);
    } else {
        let rest = s.drop_first();
        assert forall|i: int| 0 <= i < n - 1 implies white_space(#[trigger] rest[i]) by {
            assert(rest[i] == s[i + 1]);
        }
        assert(rest[n - 1] == s[n]);
        lemma_starts(rest, n - 1);
        assert(rest.skip(n - 1) =~= s.skip(n));
    }
}

/// Where the white space at the end of a text begins.
proof fn lemma_end_of(s: Seq<char>) -> (n: int)
    ensures
        0 <= n <= s.len(),
        trim_end(s) == s.take(n),
        forall|i: int| 0 <= i < s.skip(n).len() ==> white_space(#[trigger] s.skip(n)[i]),
    decreases s.len(),
{
    if s.len() > 0 && white_space(s.last()) {
        let rest = s.drop_last();
        let m = lemma_end_of(rest);
        assert(rest.take(m) =~= s.take(m));
        assert forall|i: int| 0 <= i < s.skip(m).len() implies white_space(
            #[trigger] s.skip(m)[i],
        ) by {
            if i < rest.skip(m).len() {
                assert(rest.skip(m)[i] == s.skip(m)[i]);
            }
        }
        m
    } else {
        assert(s.take(s.len() as int) =~= s);
        s.len() as int
    }
}

/// Something is done about a title exactly at the first decision, for a session with one
/// message of the user whose text is at hand: its start is stored unless it is blank, and
/// the whole of it goes to a model where that is wanted. What is stored is announced.
pub proof fn law_when_a_title_is_given(
    first: bool,
    user_count: Option<i64>,
    content: Option<Seq<char>>,
    max_len: nat,
    enabled: bool,
    title: Seq<char>,
)
    ensures
        ({
            let plan = title_plan(first, user_count, content, max_len, enabled);
            let due = first && user_count == Some(1i64) && content is Some;
            &&& plan.placeholder is Some <==> due && !blank(content->0)
            &&& plan.placeholder is Some ==> plan.placeholder->0 == placeholder_of(
                content->0,
                max_len,
            )
            &&& plan.generate_from is Some <==> due && enabled
            &&& plan.generate_from is Some ==> plan.generate_from == content
        }),
        title_notice(title) is Notice,
        title_notice(title)->Notice_0 is Title,
        title_notice(title)->Notice_0->Title_0.payload.title == title,
{
}

} // verus!
