//! The exporter: renders the capture buffer as a flat tabular text
//! record, one header line and one line per event, and proves that
//! splitting the produced text on line terminators recovers exactly
//! those lines.

use vstd::prelude::*;
use vstd::string::*;
use crate::buffer::models_of;
use crate::event::{CapturedEvent, EventModel};
use crate::render::{
    action_name,
    append_position,
    append_timestamp,
    category_name,
    spec_action_name,
    spec_category_name,
    spec_digit,
    spec_idec,
    spec_pad2,
    spec_pad4,
    spec_render_position,
    spec_render_timestamp,
    spec_udec,
};

verus! {

/// The fixed header line of every exported record.
pub open spec fn spec_header() -> Seq<char> {
    "Event Type,Button/Key,Action,Position,Timestamp"@
}

/// One record rendered as one line: category, identifier wrapped in
/// parentheses, action, position and timestamp, comma-separated.
pub open spec fn spec_render_event(e: EventModel) -> Seq<char>
    recommends
        e.timestamp.wf(),
{
    spec_category_name(e.category) + ",("@ + e.identifier + "),"@ + spec_action_name(e.action)
        + ","@ + spec_render_position(e.position) + ","@ + spec_render_timestamp(e.timestamp)
}

/// The body lines of an export: one rendered line per event, in order.
pub open spec fn spec_event_lines(es: Seq<EventModel>) -> Seq<Seq<char>> {
    es.map_values(|e: EventModel| spec_render_event(e))
}

/// All lines flattened into one text, each line followed by `'\n'`.
pub open spec fn flatten_terminated(lines: Seq<Seq<char>>) -> Seq<char>
    decreases lines.len(),
{
    if lines.len() == 0 {
        Seq::<char>::empty()
    } else {
        lines[0] + seq!['\n'] + flatten_terminated(lines.drop_first())
    }
}

/// The complete exported text for a list of events.
pub open spec fn spec_export(es: Seq<EventModel>) -> Seq<char> {
    flatten_terminated(seq![spec_header()] + spec_event_lines(es))
}

/// The name of the record derived from a task name.
pub open spec fn spec_export_filename(task_name: Seq<char>) -> Seq<char> {
    task_name + "_events.csv"@
}

/// What a finished export hands to its surroundings: the derived
/// record name and the complete text to be stored under it.
pub struct ExportArtifact {
    pub filename: String,
    pub content: String,
}

/// Renders one event as its line of the record.
pub fn render_event(e: &CapturedEvent) -> (r: String)
    requires
        e@.timestamp.wf(),
    ensures
        r@ == spec_render_event(e@),
{
    let mut s = String::new();
    s.append(category_name(e.category));
    s.append(",(");
    s.append(e.identifier.as_str());
    s.append("),");
    s.append(action_name(e.action));
    s.append(",");
    append_position(&mut s, e.position);
    s.append(",");
    append_timestamp(&mut s, e.timestamp);
    proof {
        assert(s@ =~= spec_render_event(e@));
    }
    s
}

/// Joining one more line onto flattened text appends that line and a
/// terminator.
proof fn lemma_flatten_push(lines: Seq<Seq<char>>, l: Seq<char>)
    ensures
        flatten_terminated(lines.push(l)) == flatten_terminated(lines) + l + seq!['\n'],
    decreases lines.len(),
{
    if lines.len() == 0 {
        assert(lines.push(l).drop_first() =~= lines);
        assert(flatten_terminated(lines.push(l)) =~= flatten_terminated(lines) + l + seq!['\n']);
    } else {
        assert(lines.push(l).drop_first() =~= lines.drop_first().push(l));
        lemma_flatten_push(lines.drop_first(), l);
        assert(flatten_terminated(lines.push(l)) =~= flatten_terminated(lines) + l + seq!['\n']);
    }
}

/// Serializes the events into the tabular record: the fixed header
/// line, then one line per event in insertion order, and the record
/// name derived from the task name.
pub fn export(task_name: &str, events: &Vec<CapturedEvent>) -> (r: ExportArtifact)
    requires
        forall|i: int| 0 <= i < events@.len() ==> (#[trigger] events@[i])@.timestamp.wf(),
    ensures
        r.filename@ == spec_export_filename(task_name@),
        r.content@ == spec_export(models_of(events@)),
{
    let ghost models = models_of(events@);
    let mut filename = String::new();
    filename.append(task_name);
    filename.append("_events.csv");
    let mut content = String::new();
    content.append("Event Type,Button/Key,Action,Position,Timestamp");
    content.append("\n");
    proof {
        reveal_strlit("\n");
        assert(seq![spec_header()] + spec_event_lines(models.take(0)) =~= seq![spec_header()]);
        assert(content@ =~= flatten_terminated(seq![spec_header()])) by {
            assert(seq![spec_header()].drop_first() =~= Seq::<Seq<char>>::empty());
            assert(flatten_terminated(Seq::<Seq<char>>::empty()) == Seq::<char>::empty());
            assert(flatten_terminated(seq![spec_header()]) == spec_header() + seq!['\n']
                + Seq::<char>::empty());
            assert(content@ =~= spec_header() + seq!['\n'] + Seq::<char>::empty());
        }
    }
    let mut i: usize = 0;
    while i < events.len()
        invariant
            i <= events@.len(),
            models == models_of(events@),
            forall|j: int| 0 <= j < events@.len() ==> (#[trigger] events@[j])@.timestamp.wf(),
            content@ == flatten_terminated(seq![spec_header()] + spec_event_lines(models.take(i as int))),
        decreases events@.len() - i,
    {
        let line = render_event(&events[i]);
        content.append(line.as_str());
        content.append("\n");
        proof {
            reveal_strlit("\n");
            let prev = seq![spec_header()] + spec_event_lines(models.take(i as int));
            let next = seq![spec_header()] + spec_event_lines(models.take(i + 1 as int));
            assert(next =~= prev.push(spec_render_event(models[i as int])));
            lemma_flatten_push(prev, spec_render_event(models[i as int]));
            assert(content@ =~= flatten_terminated(next));
        }
        i += 1;
    }
    proof {
        assert(models.take(events@.len() as int) =~= models);
    }
    ExportArtifact { filename, content }
}

/// Holds when no character of `s` is a line terminator.
pub open spec fn no_nl(s: Seq<char>) -> bool {
    forall|i: int| 0 <= i < s.len() ==> s[i] != '\n'
}

/// How a reader parses the exported text back into lines: each
/// `'\n'` ends a line, and a trailing unterminated fragment counts as
/// a final line.
pub open spec fn spec_split_lines(s: Seq<char>) -> Seq<Seq<char>>
    decreases s.len(),
{
    if s.len() == 0 {
        Seq::<Seq<char>>::empty()
    } else if s[0] == '\n' {
        seq![Seq::<char>::empty()] + spec_split_lines(s.drop_first())
    } else {
        let tail = spec_split_lines(s.drop_first());
        if tail.len() == 0 {
            seq![seq![s[0]]]
        } else {
            seq![seq![s[0]] + tail[0]] + tail.drop_first()
        }
    }
}

proof fn lemma_no_nl_concat(a: Seq<char>, b: Seq<char>)
    requires
        no_nl(a),
        no_nl(b),
    ensures
        no_nl(a + b),
{
    assert forall|i: int| 0 <= i < (a + b).len() implies (a + b)[i] != '\n' by {
        if i < a.len() {
            assert((a + b)[i] == a[i]);
        } else {
            assert((a + b)[i] == b[i - a.len()]);
        }
    }
}

proof fn lemma_no_nl_udec(n: int)
    ensures
        no_nl(spec_udec(n)),
    decreases n,
{
    if n < 10 {
    } else {
        lemma_no_nl_udec(n / 10);
        assert(spec_udec(n) =~= spec_udec(n / 10) + seq![spec_digit(n % 10)]);
        lemma_no_nl_concat(spec_udec(n / 10), seq![spec_digit(n % 10)]);
    }
}

proof fn lemma_no_nl_idec(n: int)
    ensures
        no_nl(spec_idec(n)),
{
    lemma_no_nl_udec(n);
    if n < 0 {
        lemma_no_nl_udec(-n);
        lemma_no_nl_concat(seq!['-'], spec_udec(-n));
    }
}

proof fn lemma_no_nl_timestamp(t: crate::event::Timestamp)
    ensures
        no_nl(spec_render_timestamp(t)),
{
    let p = spec_pad4(t.year as int);
    let a = p + seq!['-'];
    let b = a + spec_pad2(t.month as int);
    let c = b + seq!['-'];
    let d = c + spec_pad2(t.day as int);
    let e = d + seq![' '];
    let f = e + spec_pad2(t.hour as int);
    let g = f + seq![':'];
    let h = g + spec_pad2(t.minute as int);
    let i = h + seq![':'];
    lemma_no_nl_concat(p, seq!['-']);
    lemma_no_nl_concat(a, spec_pad2(t.month as int));
    lemma_no_nl_concat(b, seq!['-']);
    lemma_no_nl_concat(c, spec_pad2(t.day as int));
    lemma_no_nl_concat(d, seq![' ']);
    lemma_no_nl_concat(e, spec_pad2(t.hour as int));
    lemma_no_nl_concat(f, seq![':']);
    lemma_no_nl_concat(g, spec_pad2(t.minute as int));
    lemma_no_nl_concat(h, seq![':']);
    lemma_no_nl_concat(i, spec_pad2(t.second as int));
}

proof fn lemma_no_nl_position(p: crate::event::Position)
    ensures
        no_nl(spec_render_position(p)),
{
    reveal_strlit("N/A");
    reveal_strlit("(");
    reveal_strlit(", ");
    reveal_strlit(")");
    match p {
        crate::event::Position::NotApplicable => {},
        crate::event::Position::At { x, y } => {
            lemma_no_nl_idec(x as int);
            lemma_no_nl_idec(y as int);
            let a = "("@ + spec_idec(x as int);
            let b = a + ", "@;
            let c = b + spec_idec(y as int);
            lemma_no_nl_concat("("@, spec_idec(x as int));
            lemma_no_nl_concat(a, ", "@);
            lemma_no_nl_concat(b, spec_idec(y as int));
            lemma_no_nl_concat(c, ")"@);
        },
    }
}

proof fn lemma_no_nl_render_event(e: EventModel)
    requires
        no_nl(e.identifier),
    ensures
        no_nl(spec_render_event(e)),
{
    reveal_strlit("Keyboard");
    reveal_strlit("Mouse");
    reveal_strlit("Pressed");
    reveal_strlit("Released");
    reveal_strlit("Moved");
    reveal_strlit(",(");
    reveal_strlit("),");
    reveal_strlit(",");
    lemma_no_nl_position(e.position);
    lemma_no_nl_timestamp(e.timestamp);
    let a = spec_category_name(e.category) + ",("@;
    let b = a + e.identifier;
    let c = b + "),"@;
    let d = c + spec_action_name(e.action);
    let f = d + ","@;
    let g = f + spec_render_position(e.position);
    let h = g + ","@;
    lemma_no_nl_concat(spec_category_name(e.category), ",("@);
    lemma_no_nl_concat(a, e.identifier);
    lemma_no_nl_concat(b, "),"@);
    lemma_no_nl_concat(c, spec_action_name(e.action));
    lemma_no_nl_concat(d, ","@);
    lemma_no_nl_concat(f, spec_render_position(e.position));
    lemma_no_nl_concat(g, ","@);
    lemma_no_nl_concat(h, spec_render_timestamp(e.timestamp));
}

/// Splitting text that begins with one terminated, terminator-free
/// line peels off exactly that line.
proof fn lemma_split_prepend_line(l: Seq<char>, rest: Seq<char>)
    requires
        no_nl(l),
    ensures
        spec_split_lines(l + seq!['\n'] + rest) == seq![l] + spec_split_lines(rest),
    decreases l.len(),
{
    let s = l + seq!['\n'] + rest;
    if l.len() == 0 {
        assert(s[0] == '\n');
        assert(s.drop_first() =~= rest);
        assert(l =~= Seq::<char>::empty());
        assert(spec_split_lines(s) =~= seq![l] + spec_split_lines(rest));
    } else {
        assert(s[0] == l[0]);
        assert(s[0] != '\n');
        assert(s.drop_first() =~= l.drop_first() + seq!['\n'] + rest);
        assert(no_nl(l.drop_first())) by {
            assert forall|i: int| 0 <= i < l.drop_first().len() implies l.drop_first()[i]
                != '\n' by {
                assert(l.drop_first()[i] == l[i + 1]);
            }
        }
        lemma_split_prepend_line(l.drop_first(), rest);
        let tail = spec_split_lines(s.drop_first());
        assert(tail.len() > 0);
        assert(seq![l[0]] + tail[0] =~= l);
        assert(tail.drop_first() =~= spec_split_lines(rest));
        assert(spec_split_lines(s) =~= seq![l] + spec_split_lines(rest));
    }
}

/// Splitting flattened terminator-free lines recovers exactly those
/// lines: none is lost, duplicated, reordered or torn.
pub proof fn lemma_split_flatten(lines: Seq<Seq<char>>)
    requires
        forall|i: int| 0 <= i < lines.len() ==> no_nl(#[trigger] lines[i]),
    ensures
        spec_split_lines(flatten_terminated(lines)) == lines,
    decreases lines.len(),
{
    if lines.len() == 0 {
        assert(spec_split_lines(flatten_terminated(lines)) =~= lines);
    } else {
        assert forall|i: int| 0 <= i < lines.drop_first().len() implies no_nl(
            #[trigger] lines.drop_first()[i],
        ) by {
            assert(lines.drop_first()[i] == lines[i + 1]);
        }
        lemma_split_flatten(lines.drop_first());
        lemma_split_prepend_line(lines[0], flatten_terminated(lines.drop_first()));
        assert(seq![lines[0]] + lines.drop_first() =~= lines);
    }
}

/// Law (round trip): parsing an exported record back into lines
/// yields the header line verbatim, then one line per event in the
/// original order, each the exact rendering of its event. The
/// identifiers are assumed free of line terminators: the format does
/// not escape its fields, so an embedded terminator would break the
/// line structure.
pub proof fn lemma_export_round_trip(es: Seq<EventModel>)
    requires
        forall|i: int| 0 <= i < es.len() ==> no_nl((#[trigger] es[i]).identifier),
    ensures
        spec_split_lines(spec_export(es)) == seq![spec_header()] + spec_event_lines(es),
        spec_split_lines(spec_export(es)).len() == es.len() + 1,
        spec_split_lines(spec_export(es))[0] == spec_header(),
        forall|i: int|
            0 <= i < es.len() ==> spec_split_lines(spec_export(es))[i + 1] == spec_render_event(
                #[trigger] es[i],
            ),
{
    let lines = seq![spec_header()] + spec_event_lines(es);
    assert forall|i: int| 0 <= i < lines.len() implies no_nl(#[trigger] lines[i]) by {
        if i == 0 {
            reveal_strlit("Event Type,Button/Key,Action,Position,Timestamp");
            assert(lines[0] == spec_header());
        } else {
            assert(lines[i] == spec_render_event(es[i - 1]));
            lemma_no_nl_render_event(es[i - 1]);
        }
    }
    lemma_split_flatten(lines);
}

} // verus!
