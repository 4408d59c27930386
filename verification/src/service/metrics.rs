//! Metrics in the text exposition format, line by line.
//!
//! A line is a header or a sample. A sample's value is a number, a duration that is shown in
//! seconds, or a text that is shown as it is.
use crate::service::histogram::{DurationHistogramSnapshot, HistogramSnapshotView};
use crate::text::{append_decimal, characters, decimal};
use vstd::prelude::*;
use vstd::string::*;

verus! {

/// A sample's value.
#[derive(Debug)]
pub enum MetricValue {
    /// A number.
    Count(u64),
    /// A duration in milliseconds, shown in seconds.
    Millis(u64),
    /// A duration in microseconds, shown in seconds.
    Micros(u64),
    /// A text.
    Text(String),
}

/// What a [`MetricValue`] holds.
pub enum ValueView {
    Count(u64),
    Millis(u64),
    Micros(u64),
    Text(Seq<char>),
}

impl View for MetricValue {
    type V = ValueView;

    open spec fn view(&self) -> ValueView {
        match self {
            MetricValue::Count(value) => ValueView::Count(*value),
            MetricValue::Millis(value) => ValueView::Millis(*value),
            MetricValue::Micros(value) => ValueView::Micros(*value),
            MetricValue::Text(text) => ValueView::Text(text@),
        }
    }
}

/// A label and its value, with everything escaped that has to be.
#[derive(Debug)]
pub struct MetricLabel {
    pub name: &'static str,
    pub value: String,
}

/// One line, or a header's two.
#[derive(Debug)]
pub enum MetricLine {
    /// What a metric means and of which kind it is.
    Header { name: &'static str, help: &'static str, kind: &'static str },
    /// A value of a metric.
    Sample { name: &'static str, labels: Vec<MetricLabel>, value: MetricValue },
}

/// What a [`MetricLine`] holds.
pub enum LineView {
    Header { name: Seq<char>, help: Seq<char>, kind: Seq<char> },
    Sample { name: Seq<char>, labels: Seq<(Seq<char>, Seq<char>)>, value: ValueView },
}

/// What a list of labels holds.
pub open spec fn labels_view(labels: Seq<MetricLabel>) -> Seq<(Seq<char>, Seq<char>)> {
    labels.map_values(|label: MetricLabel| (label.name@, label.value@))
}

impl View for MetricLine {
    type V = LineView;

    open spec fn view(&self) -> LineView {
        match self {
            MetricLine::Header { name, help, kind } => LineView::Header {
                name: name@,
                help: help@,
                kind: kind@,
            },
            MetricLine::Sample { name, labels, value } => LineView::Sample {
                name: name@,
                labels: labels_view(labels@),
                value: value@,
            },
        }
    }
}

/// What a list of lines holds.
pub open spec fn lines_view(lines: Seq<MetricLine>) -> Seq<LineView> {
    lines.map_values(|line: MetricLine| line@)
}

/// A header.
pub open spec fn header_line(name: Seq<char>, help: Seq<char>, kind: Seq<char>) -> LineView {
    LineView::Header { name, help, kind }
}

/// A sample without labels.
pub open spec fn plain(name: Seq<char>, value: ValueView) -> LineView {
    LineView::Sample { name, labels: Seq::empty(), value }
}

/// A sample with one label.
pub open spec fn labelled(name: Seq<char>, a: (Seq<char>, Seq<char>), value: ValueView) -> LineView {
    LineView::Sample { name, labels: seq![a], value }
}

/// A sample with two labels.
pub open spec fn labelled_twice(
    name: Seq<char>,
    a: (Seq<char>, Seq<char>),
    b: (Seq<char>, Seq<char>),
    value: ValueView,
) -> LineView {
    LineView::Sample { name, labels: seq![a, b], value }
}

/// A sample with three labels.
pub open spec fn labelled_thrice(
    name: Seq<char>,
    a: (Seq<char>, Seq<char>),
    b: (Seq<char>, Seq<char>),
    c: (Seq<char>, Seq<char>),
    value: ValueView,
) -> LineView {
    LineView::Sample { name, labels: seq![a, b, c], value }
}

/// Lines with a header and a number behind them.
pub open spec fn with_number(
    before: Seq<LineView>,
    name: Seq<char>,
    help: Seq<char>,
    kind: Seq<char>,
    value: u64,
) -> Seq<LineView> {
    before.push(header_line(name, help, kind)).push(plain(name, ValueView::Count(value)))
}

/// Appends a header.
pub fn push_prometheus_metric_header(
    lines: &mut Vec<MetricLine>,
    name: &'static str,
    help: &'static str,
    kind: &'static str,
)
    ensures
        lines_view(final(lines)@) == lines_view(old(lines)@).push(header_line(name@, help@, kind@)),
{
    let ghost before = lines_view(lines@);
    lines.push(MetricLine::Header { name, help, kind });
    assert(lines_view(lines@) =~= before.push(header_line(name@, help@, kind@)));
}

fn push_sample(
    lines: &mut Vec<MetricLine>,
    name: &'static str,
    labels: Vec<MetricLabel>,
    value: MetricValue,
)
    ensures
        lines_view(final(lines)@) == lines_view(old(lines)@).push(
            LineView::Sample { name: name@, labels: labels_view(labels@), value: value@ },
        ),
{
    let ghost before = lines_view(lines@);
    let ghost line = LineView::Sample {
        name: name@,
        labels: labels_view(labels@),
        value: value@,
    };
    lines.push(MetricLine::Sample { name, labels, value });
    assert(lines_view(lines@) =~= before.push(line));
}

/// Appends a sample without labels.
pub fn push_plain(lines: &mut Vec<MetricLine>, name: &'static str, value: MetricValue)
    ensures
        lines_view(final(lines)@) == lines_view(old(lines)@).push(plain(name@, value@)),
{
    let labels: Vec<MetricLabel> = Vec::new();
    assert(labels_view(labels@) =~= Seq::empty());
    push_sample(lines, name, labels, value);
}

/// Appends a sample with one label.
pub fn push_labelled(
    lines: &mut Vec<MetricLine>,
    name: &'static str,
    a: (&'static str, &str),
    value: MetricValue,
)
    ensures
        lines_view(final(lines)@) == lines_view(old(lines)@).push(
            labelled(name@, (a.0@, a.1@), value@),
        ),
{
    let mut labels: Vec<MetricLabel> = Vec::new();
    labels.push(MetricLabel { name: a.0, value: a.1.to_owned() });
    assert(labels_view(labels@) =~= seq![(a.0@, a.1@)]);
    push_sample(lines, name, labels, value);
}

/// Appends a sample with two labels.
pub fn push_labelled_twice(
    lines: &mut Vec<MetricLine>,
    name: &'static str,
    a: (&'static str, &str),
    b: (&'static str, &str),
    value: MetricValue,
)
    ensures
        lines_view(final(lines)@) == lines_view(old(lines)@).push(
            labelled_twice(name@, (a.0@, a.1@), (b.0@, b.1@), value@),
        ),
{
    let mut labels: Vec<MetricLabel> = Vec::new();
    labels.push(MetricLabel { name: a.0, value: a.1.to_owned() });
    labels.push(MetricLabel { name: b.0, value: b.1.to_owned() });
    assert(labels_view(labels@) =~= seq![(a.0@, a.1@), (b.0@, b.1@)]);
    push_sample(lines, name, labels, value);
}

/// Appends a sample with three labels.
pub fn push_labelled_thrice(
    lines: &mut Vec<MetricLine>,
    name: &'static str,
    a: (&'static str, &str),
    b: (&'static str, &str),
    c: (&'static str, &str),
    value: MetricValue,
)
    ensures
        lines_view(final(lines)@) == lines_view(old(lines)@).push(
            labelled_thrice(name@, (a.0@, a.1@), (b.0@, b.1@), (c.0@, c.1@), value@),
        ),
{
    let mut labels: Vec<MetricLabel> = Vec::new();
    labels.push(MetricLabel { name: a.0, value: a.1.to_owned() });
    labels.push(MetricLabel { name: b.0, value: b.1.to_owned() });
    labels.push(MetricLabel { name: c.0, value: c.1.to_owned() });
    assert(labels_view(labels@) =~= seq![(a.0@, a.1@), (b.0@, b.1@), (c.0@, c.1@)]);
    push_sample(lines, name, labels, value);
}

/// Appends a header and a number.
pub fn push_number(
    lines: &mut Vec<MetricLine>,
    name: &'static str,
    help: &'static str,
    kind: &'static str,
    value: u64,
)
    ensures
        lines_view(final(lines)@) == with_number(
            lines_view(old(lines)@),
            name@,
            help@,
            kind@,
            value,
        ),
{
    push_prometheus_metric_header(lines, name, help, kind);
    push_plain(lines, name, MetricValue::Count(value));
}

/// A character as it stands in a label's value.
pub open spec fn escaped_char(c: char) -> Seq<char> {
    if c == '\\' {
        seq!['\\', '\\']
    } else if c == '\n' {
        seq!['\\', 'n']
    } else if c == '"' {
        seq!['\\', '"']
    } else {
        seq![c]
    }
}

/// A text as it stands in a label's value.
pub open spec fn escaped(text: Seq<char>) -> Seq<char>
    decreases text.len(),
{
    if text.len() == 0 {
        Seq::empty()
    } else {
        escaped(text.drop_last()) + escaped_char(text.last())
    }
}

/// Escapes a text for a label's value.
pub fn prometheus_label_value(value: &str) -> (r: String)
    ensures
        r@ == escaped(value@),
{
    let chars = characters(value);
    let mut r = String::new();
    let mut i: usize = 0;
    let mut start: usize = 0;
    let total: usize = chars.len();
    assert(value@.take(0) =~= Seq::empty());
    while i < total
        invariant
            i <= total,
            total == chars@.len(),
            chars@ == value@,
            start <= i,
            r@ == escaped(value@.take(start as int)),
            forall|k: int| start <= k < i ==> escaped_char(#[trigger] value@[k]) == seq![value@[k]],
        decreases total - i,
    {
        let c = chars[i];
        if c == '\\' || c == '\n' || c == '"' {
            if start < i {
                let clean = value.substring_char(start, i);
                r.append(clean);
            }
            proof {
                clean_run(value@, start as int, i as int);
                assert(r@ =~= escaped(value@.take(i as int)));
                assert(value@.take(i + 1).drop_last() =~= value@.take(i as int));
            }
            if c == '\\' {
                proof {
                    reveal_strlit("\\\\");
                    assert("\\\\"@ =~= seq!['\\', '\\']);
                }
                r.append("\\\\");
            } else if c == '\n' {
                proof {
                    reveal_strlit("\\n");
                    assert("\\n"@ =~= seq!['\\', 'n']);
                }
                r.append("\\n");
            } else {
                proof {
                    reveal_strlit("\\\"");
                    assert("\\\""@ =~= seq!['\\', '"']);
                }
                r.append("\\\"");
            }
            start = i + 1;
        }
        i = i + 1;
    }
    if start < total {
        let clean = value.substring_char(start, total);
        r.append(clean);
    }
    proof {
        clean_run(value@, start as int, total as int);
        assert(value@.take(total as int) =~= value@);
        assert(r@ =~= escaped(value@));
    }
    r
}

/// A run of characters that need no escaping stands as it is.
proof fn clean_run(text: Seq<char>, start: int, end: int)
    requires
        0 <= start <= end <= text.len(),
        forall|k: int| start <= k < end ==> escaped_char(#[trigger] text[k]) == seq![text[k]],
    ensures
        escaped(text.take(end)) == escaped(text.take(start)) + text.subrange(start, end),
    decreases end - start,
{
    if start < end {
        clean_run(text, start, end - 1);
        assert(text.take(end).drop_last() =~= text.take(end - 1));
        assert(text.subrange(start, end) =~= text.subrange(start, end - 1).push(text[end - 1]));
        assert(escaped(text.take(end)) =~= escaped(text.take(start)) + text.subrange(start, end));
    } else {
        assert(text.subrange(start, end) =~= Seq::empty());
        assert(escaped(text.take(end)) =~= escaped(text.take(start)) + text.subrange(start, end));
    }
}

/// What an escaped text stands for, read from the left.
pub open spec fn unescaped(text: Seq<char>) -> Seq<char>
    decreases text.len(),
{
    if text.len() == 0 {
        Seq::empty()
    } else if text[0] == '\\' && text.len() >= 2 {
        seq![
            if text[1] == 'n' {
                '\n'
            } else {
                text[1]
            },
        ] + unescaped(text.skip(2))
    } else {
        seq![text[0]] + unescaped(text.skip(1))
    }
}

/// Escaping loses nothing: an escaped text reads back as the text, whatever it holds.
pub proof fn escaping_is_lossless(text: Seq<char>)
    ensures
        unescaped(escaped(text)) == text,
    decreases text.len(),
{
    let none: Seq<char> = Seq::empty();
    escaping_prefix(text, none);
    assert(escaped(text) + none =~= escaped(text));
    assert(unescaped(none) =~= none);
    assert(text + none =~= text);
}

proof fn escaping_prefix(text: Seq<char>, rest: Seq<char>)
    ensures
        unescaped(escaped(text) + rest) == text + unescaped(rest),
    decreases text.len(),
{
    if text.len() == 0 {
        assert(escaped(text) + rest =~= rest);
        assert(text + unescaped(rest) =~= unescaped(rest));
    } else {
        let c = text.last();
        let front = text.drop_last();
        let tail = escaped_char(c) + rest;
        escaping_prefix(front, tail);
        assert(escaped(text) + rest =~= escaped(front) + tail);
        if c == '\\' || c == '\n' || c == '"' {
            assert(tail.skip(2) =~= rest);
        } else {
            assert(tail.skip(1) =~= rest);
        }
        assert(unescaped(tail) =~= seq![c] + unescaped(rest));
        assert(text + unescaped(rest) =~= front + (seq![c] + unescaped(rest)));
    }
}

/// An escaped text stays on its line.
pub proof fn escaped_text_has_no_line_break(text: Seq<char>)
    ensures
        forall|i: int| 0 <= i < escaped(text).len() ==> #[trigger] escaped(text)[i] != '\n',
    decreases text.len(),
{
    if text.len() > 0 {
        escaped_text_has_no_line_break(text.drop_last());
        let head = escaped(text.drop_last());
        let tail = escaped_char(text.last());
        assert forall|i: int| 0 <= i < escaped(text).len() implies #[trigger] escaped(text)[i]
            != '\n' by {
            if i < head.len() {
                assert(escaped(text)[i] == head[i]);
            } else {
                assert(escaped(text)[i] == tail[i - head.len()]);
            }
        }
    }
}

/// The bound of a histogram's bucket as it stands in a label, in seconds.
pub open spec fn bound_label(index: int) -> Seq<char> {
    if index == 0 {
        "0.0001"@
    } else if index == 1 {
        "0.00025"@
    } else if index == 2 {
        "0.0005"@
    } else if index == 3 {
        "0.001"@
    } else if index == 4 {
        "0.0025"@
    } else if index == 5 {
        "0.005"@
    } else if index == 6 {
        "0.01"@
    } else if index == 7 {
        "0.025"@
    } else if index == 8 {
        "0.05"@
    } else if index == 9 {
        "0.1"@
    } else if index == 10 {
        "0.25"@
    } else if index == 11 {
        "0.5"@
    } else {
        "1"@
    }
}

fn bucket_label(index: usize) -> (r: &'static str)
    ensures
        r@ == bound_label(index as int),
{
    if index == 0 {
        "0.0001"
    } else if index == 1 {
        "0.00025"
    } else if index == 2 {
        "0.0005"
    } else if index == 3 {
        "0.001"
    } else if index == 4 {
        "0.0025"
    } else if index == 5 {
        "0.005"
    } else if index == 6 {
        "0.01"
    } else if index == 7 {
        "0.025"
    } else if index == 8 {
        "0.05"
    } else if index == 9 {
        "0.1"
    } else if index == 10 {
        "0.25"
    } else if index == 11 {
        "0.5"
    } else {
        "1"
    }
}

/// The names of a histogram's three metrics.
#[derive(Debug, Clone, Copy)]
pub struct HistogramNames {
    pub bucket: &'static str,
    pub sum: &'static str,
    pub count: &'static str,
}

/// Lines with a histogram's first `count` buckets behind them.
pub open spec fn with_buckets(
    before: Seq<LineView>,
    name: Seq<char>,
    labels: Seq<(Seq<char>, Seq<char>)>,
    buckets: Seq<u64>,
    count: nat,
) -> Seq<LineView>
    decreases count,
{
    if count == 0 {
        before
    } else {
        with_buckets(before, name, labels, buckets, (count - 1) as nat).push(
            LineView::Sample {
                name,
                labels: labels.push(("le"@, bound_label(count - 1))),
                value: ValueView::Count(buckets[count - 1]),
            },
        )
    }
}

/// Lines with a histogram behind them: its buckets, the bucket without a bound, the sum and the
/// count.
pub open spec fn with_histogram(
    before: Seq<LineView>,
    names: HistogramNames,
    labels: Seq<(Seq<char>, Seq<char>)>,
    histogram: HistogramSnapshotView,
) -> Seq<LineView> {
    with_buckets(
        before,
        names.bucket@,
        labels,
        histogram.buckets,
        crate::arith::min_int(histogram.buckets.len() as int, 13) as nat,
    ).push(
        LineView::Sample {
            name: names.bucket@,
            labels: labels.push(("le"@, "+Inf"@)),
            value: ValueView::Count(histogram.count),
        },
    ).push(
        LineView::Sample { name: names.sum@, labels, value: ValueView::Micros(histogram.sum_us) },
    ).push(
        LineView::Sample { name: names.count@, labels, value: ValueView::Count(histogram.count) },
    )
}

/// What a list of names and values holds.
pub open spec fn pairs_view(pairs: Seq<(&'static str, &'static str)>) -> Seq<(Seq<char>, Seq<char>)> {
    pairs.map_values(|pair: (&'static str, &'static str)| (pair.0@, pair.1@))
}

fn copy_labels(pairs: &Vec<(&'static str, &'static str)>) -> (r: Vec<MetricLabel>)
    ensures
        labels_view(r@) == pairs_view(pairs@),
{
    let mut r: Vec<MetricLabel> = Vec::new();
    let mut i: usize = 0;
    while i < pairs.len()
        invariant
            i <= pairs@.len(),
            labels_view(r@) == pairs_view(pairs@).take(i as int),
        decreases pairs@.len() - i,
    {
        let ghost older = labels_view(r@);
        let label = MetricLabel { name: pairs[i].0, value: pairs[i].1.to_owned() };
        r.push(label);
        assert(labels_view(r@) =~= older.push((label.name@, label.value@)));
        assert(labels_view(r@) =~= pairs_view(pairs@).take(i + 1));
        i = i + 1;
    }
    assert(pairs_view(pairs@).take(i as int) =~= pairs_view(pairs@));
    r
}

fn push_le(
    lines: &mut Vec<MetricLine>,
    name: &'static str,
    labels: &Vec<(&'static str, &'static str)>,
    le: &'static str,
    value: u64,
)
    ensures
        lines_view(final(lines)@) == lines_view(old(lines)@).push(
            LineView::Sample {
                name: name@,
                labels: pairs_view(labels@).push(("le"@, le@)),
                value: ValueView::Count(value),
            },
        ),
{
    let mut all = copy_labels(labels);
    let ghost older = labels_view(all@);
    all.push(MetricLabel { name: "le", value: le.to_owned() });
    assert(labels_view(all@) =~= older.push(("le"@, le@)));
    push_sample(lines, name, all, MetricValue::Count(value));
}

/// Appends a histogram.
pub fn push_histogram(
    lines: &mut Vec<MetricLine>,
    names: HistogramNames,
    labels: &Vec<(&'static str, &'static str)>,
    histogram: &DurationHistogramSnapshot,
)
    ensures
        lines_view(final(lines)@) == with_histogram(
            lines_view(old(lines)@),
            names,
            pairs_view(labels@),
            histogram@,
        ),
{
    let ghost before = lines_view(lines@);
    let total: usize = if histogram.buckets.len() <= 13 {
        histogram.buckets.len()
    } else {
        13
    };
    let mut i: usize = 0;
    while i < total
        invariant
            i <= total <= histogram.buckets@.len(),
            lines_view(lines@) == with_buckets(
                before,
                names.bucket@,
                pairs_view(labels@),
                histogram@.buckets,
                i as nat,
            ),
        decreases total - i,
    {
        push_le(lines, names.bucket, labels, bucket_label(i), histogram.buckets[i]);
        i = i + 1;
    }
    push_le(lines, names.bucket, labels, "+Inf", histogram.count);
    let all = copy_labels(labels);
    push_sample(lines, names.sum, all, MetricValue::Micros(histogram.sum_us));
    let all = copy_labels(labels);
    push_sample(lines, names.count, all, MetricValue::Count(histogram.count));
}

/// A sample's labels as they stand on a line.
pub open spec fn labels_text(labels: Seq<(Seq<char>, Seq<char>)>) -> Seq<char>
    decreases labels.len(),
{
    if labels.len() == 0 {
        Seq::empty()
    } else {
        let before = labels_text(labels.drop_last());
        (if labels.len() == 1 {
            before
        } else {
            before + ","@
        }) + labels.last().0 + "=\""@ + labels.last().1 + "\""@
    }
}

/// A value as it stands on a line, where `seconds` is how its duration is shown.
pub open spec fn value_text(value: ValueView, seconds: Seq<char>) -> Seq<char> {
    match value {
        ValueView::Count(count) => decimal(count as nat),
        ValueView::Millis(_) => seconds,
        ValueView::Micros(_) => seconds,
        ValueView::Text(text) => text,
    }
}

/// A line's text, where `seconds` is how its duration is shown.
pub open spec fn line_text(line: LineView, seconds: Seq<char>) -> Seq<char> {
    match line {
        LineView::Header { name, help, kind } => "# HELP "@ + name + " "@ + help + "\n# TYPE "@
            + name + " "@ + kind + "\n"@,
        LineView::Sample { name, labels, value } => (if labels.len() == 0 {
            name
        } else {
            name + "{"@ + labels_text(labels) + "}"@
        }) + " "@ + value_text(value, seconds) + "\n"@,
    }
}

fn append_labels(out: &mut String, labels: &Vec<MetricLabel>)
    ensures
        final(out)@ == old(out)@ + labels_text(labels_view(labels@)),
{
    let ghost before = out@;
    let ghost all = labels_view(labels@);
    let mut text = String::new();
    let mut i: usize = 0;
    assert(all.take(0) =~= Seq::empty());
    while i < labels.len()
        invariant
            i <= labels@.len(),
            all == labels_view(labels@),
            text@ == labels_text(all.take(i as int)),
            out@ == before,
        decreases labels@.len() - i,
    {
        assert(all.take(i + 1).drop_last() =~= all.take(i as int));
        assert(all.take(i + 1).last() == (labels@[i as int].name@, labels@[i as int].value@));
        if i > 0 {
            text.append(",");
        }
        text.append(labels[i].name);
        text.append("=\"");
        text.append(labels[i].value.as_str());
        text.append("\"");
        i = i + 1;
    }
    assert(all.take(i as int) =~= all);
    out.append(text.as_str());
}

/// Appends a line's text, where `seconds` is how its duration is shown.
pub fn append_line(out: &mut String, line: &MetricLine, seconds: &str)
    ensures
        final(out)@ == old(out)@ + line_text(line@, seconds@),
{
    let mut text = String::new();
    match line {
        MetricLine::Header { name, help, kind } => {
            text.append("# HELP ");
            text.append(name);
            text.append(" ");
            text.append(help);
            text.append("\n# TYPE ");
            text.append(name);
            text.append(" ");
            text.append(kind);
            text.append("\n");
        },
        MetricLine::Sample { name, labels, value } => {
            text.append(name);
            if labels.len() > 0 {
                text.append("{");
                append_labels(&mut text, labels);
                text.append("}");
            }
            text.append(" ");
            match value {
                MetricValue::Count(count) => append_decimal(&mut text, *count),
                MetricValue::Millis(_) => text.append(seconds),
                MetricValue::Micros(_) => text.append(seconds),
                MetricValue::Text(shown) => text.append(shown.as_str()),
            }
            text.append("\n");
        },
    }
    assert(text@ =~= line_text(line@, seconds@));
    out.append(text.as_str());
}

/// A sample stands on a line of its own: behind its name, its labels in brackets where it has any,
/// and a space.
pub proof fn samples_are_told_behind_their_name(
    name: Seq<char>,
    labels: Seq<(Seq<char>, Seq<char>)>,
    value: ValueView,
    seconds: Seq<char>,
)
    ensures
        ({
            let text = line_text(LineView::Sample { name, labels, value }, seconds);
            let told = " "@ + value_text(value, seconds) + "\n"@;
            &&& text.len() >= name.len() + told.len()
            &&& text.take(name.len() as int) == name
            &&& text.skip(text.len() - told.len()) == told
            &&& text.last() == '\n'
            &&& labels.len() == 0 ==> text == name + told
            &&& labels.len() > 0 ==> text[name.len() as int] == '{' && text[text.len() - told.len()
                - 1] == '}' && text.subrange(
                (name.len() + 1) as int,
                text.len() - told.len() - 1,
            ) == labels_text(labels)
            &&& value matches ValueView::Count(count) ==> value_text(value, seconds) == decimal(
                count as nat,
            )
            &&& value matches ValueView::Text(own) ==> value_text(value, seconds) == own
        }),
{
    reveal_strlit(" ");
    reveal_strlit("\n");
    reveal_strlit("{");
    reveal_strlit("}");
    let text = line_text(LineView::Sample { name, labels, value }, seconds);
    let told = " "@ + value_text(value, seconds) + "\n"@;
    if labels.len() == 0 {
        assert(text =~= name + told);
    } else {
        assert(text =~= name + "{"@ + labels_text(labels) + "}"@ + told);
        assert(text.subrange((name.len() + 1) as int, text.len() - told.len() - 1) =~= labels_text(labels));
    }
    assert(text.take(name.len() as int) =~= name);
    assert(text.skip(text.len() - told.len()) =~= told);
}

/// Labels are told one behind the other, each with its value in quotation marks and a comma between
/// any two.
pub proof fn labels_are_told_in_turn(
    front: Seq<(Seq<char>, Seq<char>)>,
    back: Seq<(Seq<char>, Seq<char>)>,
)
    requires
        front.len() > 0,
        back.len() > 0,
    ensures
        labels_text(front + back) == labels_text(front) + ","@ + labels_text(back),
        back.len() == 1 ==> labels_text(back) == back[0].0 + "=\""@ + back[0].1 + "\""@,
    decreases back.len(),
{
    reveal_with_fuel(labels_text, 2);
    let both = front + back;
    assert(both.drop_last() =~= front + back.drop_last());
    assert(both.last() == back.last());
    if back.len() == 1 {
        assert(both.drop_last() =~= front);
        assert(labels_text(back) =~= back[0].0 + "=\""@ + back[0].1 + "\""@);
        assert(labels_text(both) =~= labels_text(front) + ","@ + labels_text(back));
    } else {
        labels_are_told_in_turn(front, back.drop_last());
        assert(labels_text(both) =~= labels_text(front) + ","@ + labels_text(back));
    }
}

} // verus!
