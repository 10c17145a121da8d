//! The layout of a rendered error, as a function on character sequences, and
//! the executable function that produces it.

use vstd::prelude::*;
use vstd::string::StringExecFns;

verus! {

/// `pat` occurs in `text` starting at position `at`.
pub open spec fn occurs_at(text: Seq<char>, pat: Seq<char>, at: int) -> bool {
    &&& 0 <= at
    &&& at + pat.len() <= text.len()
    &&& text.subrange(at, at + pat.len()) == pat
}

/// `pat` occurs somewhere in `text`.
pub open spec fn contains(text: Seq<char>, pat: Seq<char>) -> bool {
    exists|at: int| occurs_at(text, pat, at)
}

/// The character `c` occurs nowhere in `text`.
pub open spec fn lacks_char(text: Seq<char>, c: char) -> bool {
    forall|k: int| 0 <= k < text.len() ==> text[k] != c
}

/// What opens a description in a rendered error.
pub const DESCRIPTION_OPEN: &'static str = " (";

/// What closes a description in a rendered error.
pub const DESCRIPTION_CLOSE: &'static str = ")";

/// The blank line and the header line that precede a rendered backtrace.
pub const BACKTRACE_HEADER: &'static str = "\n\nBacktrace:\n";

/// The label by which a reader finds the backtrace section.
pub const BACKTRACE_LABEL: &'static str = "Backtrace:";

/// The hint that stands in place of the backtrace section when no backtrace
/// was captured, after a blank line.
pub const CAPTURE_HINT: &'static str =
    "\n\nNo backtrace captured; set RUST_BACKTRACE=1 to enable capture";

/// What opens a description in a rendered error.
pub open spec fn description_open() -> Seq<char> {
    DESCRIPTION_OPEN@
}

/// What closes a description in a rendered error.
pub open spec fn description_close() -> Seq<char> {
    DESCRIPTION_CLOSE@
}

/// The blank line and the header line that precede a rendered backtrace.
pub open spec fn backtrace_header() -> Seq<char> {
    BACKTRACE_HEADER@
}

/// The label by which a reader finds the backtrace section.
pub open spec fn backtrace_label() -> Seq<char> {
    BACKTRACE_LABEL@
}

/// What stands in place of the backtrace section when no backtrace was
/// captured.
pub open spec fn capture_hint() -> Seq<char> {
    CAPTURE_HINT@
}

/// The description as it is shown: nothing for the empty description, else
/// the description in parentheses after a space.
pub open spec fn description_suffix(description: Seq<char>) -> Seq<char> {
    if description.len() == 0 {
        Seq::empty()
    } else {
        description_open() + description + description_close()
    }
}

/// What follows payload and description: the backtrace under its header, or
/// the hint where there is no backtrace.
pub open spec fn trace_section(trace: Option<Seq<char>>) -> Seq<char> {
    match trace {
        Some(t) => backtrace_header() + t,
        None => capture_hint(),
    }
}

/// The whole text of an error: the payload's text, the description if there is
/// one, then the backtrace section.
pub open spec fn rendering(
    payload: Seq<char>,
    description: Seq<char>,
    trace: Option<Seq<char>>,
) -> Seq<char> {
    payload + description_suffix(description) + trace_section(trace)
}

/// Lays out an error from the text of its payload, its description and the
/// text of its backtrace.
pub fn render_text(payload: &str, description: &str, trace: Option<&str>) -> (text: String)
    ensures
        text@ == rendering(
            payload@,
            description@,
            match trace {
                Some(t) => Some(t@),
                None => None,
            },
        ),
{
    let mut text = String::from_str(payload);
    if !description.is_empty() {
        text.append(DESCRIPTION_OPEN);
        text.append(description);
        text.append(DESCRIPTION_CLOSE);
    }
    match trace {
        Some(t) => {
            text.append(BACKTRACE_HEADER);
            text.append(t);
        },
        None => {
            text.append(CAPTURE_HINT);
        },
    }
    proof {
        let d = description_suffix(description@);
        let s = trace_section(
            match trace {
                Some(t) => Some(t@),
                None => None,
            },
        );
        assert(text@ =~= payload@ + d + s);
    }
    text
}

/// The two sequences have no character in common.
pub open spec fn disjoint_chars(a: Seq<char>, b: Seq<char>) -> bool {
    forall|k: int, j: int| 0 <= k < a.len() && 0 <= j < b.len() ==> a[k] != b[j]
}

/// A pattern that ends in a character which `tail` lacks cannot reach into
/// `tail`: if it occurs in `head + tail`, it occurs in `head`.
pub proof fn lemma_tail_lacks_last(head: Seq<char>, tail: Seq<char>, pat: Seq<char>)
    requires
        pat.len() > 0,
        lacks_char(tail, pat.last()),
        contains(head + tail, pat),
    ensures
        contains(head, pat),
{
    let whole = head + tail;
    let at = choose|at: int| occurs_at(whole, pat, at);
    let last = at + pat.len() - 1;
    assert(whole.subrange(at, at + pat.len())[pat.len() - 1] == whole[last]);
    if last >= head.len() {
        assert(whole[last] == tail[last - head.len()]);
    }
    assert(head.subrange(at, at + pat.len()) =~= whole.subrange(at, at + pat.len()));
    assert(occurs_at(head, pat, at));
}

/// A pattern cannot lie across a separator with which it shares no character:
/// if it occurs in `left + sep + right`, it occurs in `left` or in `right`.
pub proof fn lemma_separated(left: Seq<char>, sep: Seq<char>, right: Seq<char>, pat: Seq<char>)
    requires
        sep.len() > 0,
        disjoint_chars(sep, pat),
        contains(left + sep + right, pat),
    ensures
        contains(left, pat) || contains(right, pat),
{
    let whole = left + sep + right;
    let at = choose|at: int| occurs_at(whole, pat, at);
    let end = at + pat.len();
    let window = whole.subrange(at, end);
    if pat.len() == 0 {
        assert(left.subrange(0, 0) =~= pat);
        assert(occurs_at(left, pat, 0));
    } else if end <= left.len() {
        assert(left.subrange(at, end) =~= window);
        assert(occurs_at(left, pat, at));
    } else if at >= left.len() + sep.len() {
        let shift = left.len() + sep.len();
        assert(right.subrange(at - shift, end - shift) =~= window);
        assert(occurs_at(right, pat, at - shift));
    } else {
        let q = if at >= left.len() { at } else { left.len() as int };
        assert(window[q - at] == whole[q]);
        assert(whole[q] == sep[q - left.len()]);
        assert(false);
    }
}

/// A text occurs in itself with anything put before and after it.
pub proof fn lemma_occurs_between(before: Seq<char>, pat: Seq<char>, after: Seq<char>)
    ensures
        occurs_at(before + pat + after, pat, before.len() as int),
        contains(before + pat + after, pat),
{
    let whole = before + pat + after;
    let start = before.len() as int;
    assert(whole.subrange(start, start + pat.len()) =~= pat);
    assert(occurs_at(whole, pat, start));
}

/// The parentheses of a description with nothing between them.
pub open spec fn empty_parentheses() -> Seq<char> {
    description_open() + description_close()
}

/// Which characters the fixed pieces of the layout hold, as far as the laws
/// below need it.
proof fn lemma_fixed_pieces()
    ensures
        description_open() =~= seq![' ', '('],
        description_close() =~= seq![')'],
        backtrace_label().len() == 10,
        backtrace_label().last() == ':',
        lacks_char(backtrace_label(), ' '),
        lacks_char(backtrace_label(), '('),
        lacks_char(backtrace_label(), ')'),
        backtrace_header().len() == 13,
        lacks_char(backtrace_header(), ' '),
        lacks_char(backtrace_header(), '('),
        lacks_char(backtrace_header(), ')'),
        lacks_char(capture_hint(), ':'),
        lacks_char(capture_hint(), ')'),
{
    reveal_strlit(" (");
    reveal_strlit(")");
    reveal_strlit("Backtrace:");
    reveal_strlit("\n\nBacktrace:\n");
    reveal_strlit("\n\nNo backtrace captured; set RUST_BACKTRACE=1 to enable capture");
}

/// The payload's text opens the rendering, the description follows it
/// directly, and the backtrace section closes it.
pub proof fn lemma_rendering_layout(
    payload: Seq<char>,
    description: Seq<char>,
    trace: Option<Seq<char>>,
)
    ensures
        occurs_at(rendering(payload, description, trace), payload, 0),
        occurs_at(
            rendering(payload, description, trace),
            description_suffix(description),
            payload.len() as int,
        ),
        occurs_at(
            rendering(payload, description, trace),
            trace_section(trace),
            (payload.len() + description_suffix(description).len()) as int,
        ),
        rendering(payload, description, trace).len() == payload.len() + description_suffix(
            description,
        ).len() + trace_section(trace).len(),
{
    let whole = rendering(payload, description, trace);
    let suffix = description_suffix(description);
    let section = trace_section(trace);
    let mid = payload.len() as int;
    let end = mid + suffix.len();
    assert(whole.subrange(0, mid) =~= payload);
    assert(whole.subrange(mid, end) =~= suffix);
    assert(whole.subrange(end, end + section.len()) =~= section);
}

/// A rendering shows the description in parentheses exactly if the
/// description is not empty. Left out are the renderings of an empty
/// description in which the payload's text or the backtrace's text itself
/// holds a pair of empty parentheses after a space.
pub proof fn lemma_description_shown_iff(
    payload: Seq<char>,
    description: Seq<char>,
    trace: Option<Seq<char>>,
)
    requires
        description.len() == 0 ==> !contains(payload, empty_parentheses()),
        description.len() == 0 ==> (trace matches Some(t) ==> !contains(t, empty_parentheses())),
    ensures
        contains(
            rendering(payload, description, trace),
            description_open() + description + description_close(),
        ) <==> description.len() > 0,
{
    let whole = rendering(payload, description, trace);
    let shown = description_open() + description + description_close();
    if description.len() > 0 {
        lemma_occurs_between(payload, shown, trace_section(trace));
    } else {
        lemma_fixed_pieces();
        let pat = empty_parentheses();
        assert(shown =~= pat);
        assert(pat =~= seq![' ', '(', ')']);
        if contains(whole, pat) {
            match trace {
                Some(t) => {
                    assert(whole =~= payload + backtrace_header() + t);
                    assert(disjoint_chars(backtrace_header(), pat));
                    lemma_separated(payload, backtrace_header(), t, pat);
                },
                None => {
                    assert(whole =~= payload + capture_hint());
                    lemma_tail_lacks_last(payload, capture_hint(), pat);
                },
            }
        }
    }
}

/// Where no backtrace was captured, the rendering shows the hint, and the
/// label of the backtrace section occurs nowhere in it. Left out are the
/// payloads and descriptions whose own text holds that label.
pub proof fn lemma_hint_without_backtrace(payload: Seq<char>, description: Seq<char>)
    requires
        !contains(payload, backtrace_label()),
        !contains(description, backtrace_label()),
    ensures
        contains(rendering(payload, description, None), capture_hint()),
        !contains(rendering(payload, description, None), backtrace_label()),
{
    let whole = rendering(payload, description, None);
    let head = payload + description_suffix(description);
    let label = backtrace_label();
    lemma_fixed_pieces();
    lemma_occurs_between(head, capture_hint(), Seq::empty());
    assert(whole =~= head + capture_hint() + Seq::empty());
    if contains(whole, label) {
        assert(whole =~= head + capture_hint());
        lemma_tail_lacks_last(head, capture_hint(), label);
        if description.len() == 0 {
            assert(head =~= payload);
        } else {
            let rest = description + description_close();
            assert(head =~= payload + description_open() + rest);
            assert(disjoint_chars(description_open(), label));
            lemma_separated(payload, description_open(), rest, label);
            lemma_tail_lacks_last(description, description_close(), label);
        }
    }
}

/// Where a backtrace was captured, the rendering shows it under its header,
/// right after payload and description, and ends with it.
pub proof fn lemma_backtrace_shown(
    payload: Seq<char>,
    description: Seq<char>,
    trace: Seq<char>,
)
    ensures
        occurs_at(
            rendering(payload, description, Some(trace)),
            backtrace_header() + trace,
            (payload.len() + description_suffix(description).len()) as int,
        ),
        contains(rendering(payload, description, Some(trace)), backtrace_label()),
{
    let whole = rendering(payload, description, Some(trace));
    let head = payload + description_suffix(description);
    lemma_rendering_layout(payload, description, Some(trace));
    reveal_strlit("Backtrace:");
    reveal_strlit("\n\nBacktrace:\n");
    let before = head + seq!['\n', '\n'];
    let after = seq!['\n'] + trace;
    assert(backtrace_header() =~= seq!['\n', '\n'] + backtrace_label() + seq!['\n']);
    assert(whole =~= before + backtrace_label() + after);
    lemma_occurs_between(before, backtrace_label(), after);
}

} // verus!
