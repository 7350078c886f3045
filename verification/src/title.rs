use vstd::prelude::*;
use crate::md::{MdEvent, md_events, parse_events};

verus! {

/// One forward scan over a Markdown event stream, carrying the scan state:
/// whether a level-1 heading is open (`in_title`) and the text gathered so
/// far (`acc`). A start of a level-1 heading opens the title; a text run
/// seen while the title is open overwrites the gathered text (last run
/// wins); the end of a level-1 heading seen while the title is open stops
/// the scan. If the stream ends first, the gathered text stands.
pub open spec fn title_scan(events: Seq<MdEvent>, in_title: bool, acc: Seq<char>) -> Seq<char>
    decreases events.len(),
{
    if events.len() == 0 {
        acc
    } else {
        match events[0] {
            MdEvent::HeadingStart(level) => title_scan(
                events.skip(1),
                if level == 1 {
                    true
                } else {
                    in_title
                },
                acc,
            ),
            MdEvent::Text(text) => title_scan(
                events.skip(1),
                in_title,
                if in_title {
                    text@
                } else {
                    acc
                },
            ),
            MdEvent::HeadingEnd(level) => if level == 1 && in_title {
                acc
            } else {
                title_scan(events.skip(1), in_title, acc)
            },
            MdEvent::Other => title_scan(events.skip(1), in_title, acc),
        }
    }
}

/// The title of a document, read off its Markdown event stream: the last
/// text run inside the first level-1 heading, or the empty sequence if the
/// stream holds no level-1 heading.
pub open spec fn spec_title(events: Seq<MdEvent>) -> Seq<char> {
    title_scan(events, false, Seq::empty())
}

/// Single-pass title extraction over a parsed Markdown event stream.
pub fn extract_title(events: &Vec<MdEvent>) -> (title: String)
    ensures
        title@ == spec_title(events@),
{
    let mut title = String::new();
    let mut in_title = false;
    let mut i: usize = 0;
    proof {
        assert(events@.skip(0) =~= events@);
    }
    while i < events.len()
        invariant
            i <= events@.len(),
            spec_title(events@) == title_scan(events@.skip(i as int), in_title, title@),
        decreases events@.len() - i,
    {
        proof {
            assert(events@.skip(i as int)[0] == events@[i as int]);
            assert(events@.skip(i as int).skip(1) =~= events@.skip(i as int + 1));
        }
        match &events[i] {
            MdEvent::HeadingStart(level) => {
                if *level == 1 {
                    in_title = true;
                }
            },
            MdEvent::Text(text) => {
                if in_title {
                    title = text.clone();
                }
            },
            MdEvent::HeadingEnd(level) => {
                if *level == 1 && in_title {
                    return title;
                }
            },
            MdEvent::Other => {},
        }
        i = i + 1;
    }
    title
}

/// The title of a Markdown source text: the source is parsed once with
/// default options and the event stream is scanned for the first level-1
/// heading.
pub fn title_of(source: &str) -> (title: String)
    ensures
        title@ == spec_title(md_events(source@)),
{
    let events = parse_events(source);
    extract_title(&events)
}

/// Scanning a prefix that opens no level-1 heading changes nothing: the
/// scan passes over it with its state intact.
proof fn lemma_scan_skips_prefix(pre: Seq<MdEvent>, rest: Seq<MdEvent>, acc: Seq<char>)
    requires
        forall|i: int| 0 <= i < pre.len() ==> pre[i] != MdEvent::HeadingStart(1),
    ensures
        title_scan(pre + rest, false, acc) == title_scan(rest, false, acc),
    decreases pre.len(),
{
    if pre.len() == 0 {
        assert(pre + rest =~= rest);
    } else {
        assert((pre + rest)[0] == pre[0]);
        assert((pre + rest).skip(1) =~= pre.skip(1) + rest);
        assert(forall|i: int| 0 <= i < pre.skip(1).len() ==> pre.skip(1)[i] == pre[i + 1]);
        lemma_scan_skips_prefix(pre.skip(1), rest, acc);
    }
}

/// Inside an open level-1 heading whose remaining content is text runs and
/// inline noise ending in a text run, the scan returns that final run: each
/// text run overwrites the one before it.
proof fn lemma_scan_open_heading(runs: Seq<MdEvent>, post: Seq<MdEvent>, acc: Seq<char>, last: String)
    requires
        runs.len() > 0,
        forall|i: int| 0 <= i < runs.len() ==> (runs[i] is Text || runs[i] is Other),
        runs[runs.len() - 1] == MdEvent::Text(last),
    ensures
        title_scan(runs + (seq![MdEvent::HeadingEnd(1)] + post), true, acc) == last@,
    decreases runs.len(),
{
    let tail = seq![MdEvent::HeadingEnd(1)] + post;
    assert((runs + tail)[0] == runs[0]);
    assert((runs + tail).skip(1) =~= runs.skip(1) + tail);
    if runs.len() == 1 {
        assert(runs[0] == MdEvent::Text(last));
        assert((runs + tail).skip(1) =~= tail);
        assert(tail[0] == MdEvent::HeadingEnd(1));
        assert(title_scan(runs + tail, true, acc) == title_scan(tail, true, last@));
        assert(title_scan(tail, true, last@) == last@);
    } else {
        assert(forall|i: int| 0 <= i < runs.skip(1).len() ==> runs.skip(1)[i] == runs[i + 1]);
        assert(runs.skip(1)[runs.skip(1).len() - 1] == MdEvent::Text(last));
        match runs[0] {
            MdEvent::Text(text) => {
                lemma_scan_open_heading(runs.skip(1), post, text@, last);
                assert(title_scan(runs + tail, true, acc) == title_scan(
                    runs.skip(1) + tail,
                    true,
                    text@,
                ));
            },
            _ => {
                assert(runs[0] is Other);
                lemma_scan_open_heading(runs.skip(1), post, acc, last);
                assert(title_scan(runs + tail, true, acc) == title_scan(
                    runs.skip(1) + tail,
                    true,
                    acc,
                ));
            },
        }
    }
}

/// A document whose event stream holds a level-1 heading with a single text
/// run, and no earlier start of a level-1 heading, is titled with exactly
/// that run's text.
pub proof fn lemma_single_heading_title(pre: Seq<MdEvent>, text: String, post: Seq<MdEvent>)
    requires
        forall|i: int| 0 <= i < pre.len() ==> pre[i] != MdEvent::HeadingStart(1),
    ensures
        spec_title(
            pre + seq![
                MdEvent::HeadingStart(1),
                MdEvent::Text(text),
                MdEvent::HeadingEnd(1),
            ] + post,
        ) == text@,
{
    let heading = seq![MdEvent::HeadingStart(1), MdEvent::Text(text), MdEvent::HeadingEnd(1)];
    let rest = heading + post;
    assert(pre + heading + post =~= pre + rest);
    lemma_scan_skips_prefix(pre, rest, Seq::empty());
    assert(rest[0] == MdEvent::HeadingStart(1));
    assert(rest.skip(1) =~= seq![MdEvent::Text(text)] + (seq![MdEvent::HeadingEnd(1)] + post));
    lemma_scan_open_heading(seq![MdEvent::Text(text)], post, Seq::empty(), text);
}

/// A document whose event stream never starts a level-1 heading is titled
/// with the empty string.
pub proof fn lemma_no_heading_no_title(events: Seq<MdEvent>)
    requires
        forall|i: int| 0 <= i < events.len() ==> events[i] != MdEvent::HeadingStart(1),
    ensures
        spec_title(events) == Seq::<char>::empty(),
{
    lemma_scan_skips_prefix(events, Seq::empty(), Seq::empty());
    assert(events + Seq::<MdEvent>::empty() =~= events);
}

/// Last-wins: a level-1 heading holding several text runs titles the
/// document with its final run alone, never the concatenation of all runs.
pub proof fn lemma_last_run_wins(runs: Seq<MdEvent>, post: Seq<MdEvent>, last: String)
    requires
        runs.len() > 0,
        forall|i: int| 0 <= i < runs.len() ==> (runs[i] is Text || runs[i] is Other),
        runs[runs.len() - 1] == MdEvent::Text(last),
    ensures
        spec_title(seq![MdEvent::HeadingStart(1)] + runs + seq![MdEvent::HeadingEnd(1)] + post)
            == last@,
{
    let events = seq![MdEvent::HeadingStart(1)] + runs + seq![MdEvent::HeadingEnd(1)] + post;
    assert(events[0] == MdEvent::HeadingStart(1));
    assert(events.skip(1) =~= runs + (seq![MdEvent::HeadingEnd(1)] + post));
    lemma_scan_open_heading(runs, post, Seq::empty(), last);
}

} // verus!
