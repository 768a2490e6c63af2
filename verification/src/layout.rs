//! The layout engine: a block of art and a list of metric lines merged into
//! rows, the art on the left, the metrics in one aligned column on the right.

use vstd::prelude::*;
use crate::text::{blank, spaces, texts, width};

verus! {

/// The number of spaces between the art column and the metric column when
/// there is art.
pub const GAP: usize = 3;

/// The width of the widest line of the art, 0 for no art.
pub open spec fn widest(art: Seq<Seq<char>>) -> nat
    decreases art.len(),
{
    if art.len() == 0 {
        0
    } else if art.last().len() >= widest(art.drop_last()) {
        art.last().len()
    } else {
        widest(art.drop_last())
    }
}

/// The width of the gap: nothing without art, `GAP` with it.
pub open spec fn gap_of(art: Seq<Seq<char>>) -> nat {
    if art.len() == 0 {
        0
    } else {
        GAP as nat
    }
}

/// The column at which every metric starts.
pub open spec fn metric_column(art: Seq<Seq<char>>) -> nat {
    widest(art) + gap_of(art)
}

/// The left part of row `i`: the art line padded to the widest width, or
/// that many blanks below the art.
pub open spec fn art_cell(art: Seq<Seq<char>>, i: int) -> Seq<char> {
    if 0 <= i < art.len() {
        art[i] + blank((widest(art) - art[i].len()) as nat)
    } else {
        blank(widest(art))
    }
}

/// The right part of row `i`: the metric, or nothing below the metrics.
pub open spec fn metric_cell(metrics: Seq<Seq<char>>, i: int) -> Seq<char> {
    if 0 <= i < metrics.len() {
        metrics[i]
    } else {
        Seq::empty()
    }
}

/// Row `i` of the rendering: art cell, gap, metric cell.
pub open spec fn row(art: Seq<Seq<char>>, metrics: Seq<Seq<char>>, i: int) -> Seq<char> {
    art_cell(art, i) + blank(gap_of(art)) + metric_cell(metrics, i)
}

/// The number of rows: as many as the longer of the two lists.
pub open spec fn row_count(art: Seq<Seq<char>>, metrics: Seq<Seq<char>>) -> nat {
    if art.len() >= metrics.len() {
        art.len()
    } else {
        metrics.len()
    }
}

/// The rendering of an art block beside a list of metrics.
pub open spec fn rendered(art: Seq<Seq<char>>, metrics: Seq<Seq<char>>) -> Seq<Seq<char>> {
    Seq::new(row_count(art, metrics), |i: int| row(art, metrics, i))
}

/// No line of the art is wider than the widest, and with art some line is
/// that wide.
pub proof fn lemma_widest(art: Seq<Seq<char>>)
    ensures
        forall|i: int| 0 <= i < art.len() ==> (#[trigger] art[i]).len() <= widest(art),
        art.len() > 0 ==> exists|i: int|
            0 <= i < art.len() && (#[trigger] art[i]).len() == widest(art),
        art.len() == 0 ==> widest(art) == 0,
    decreases art.len(),
{
    if art.len() > 0 {
        let front: Seq<Seq<char>> = art.drop_last();
        lemma_widest(front);
        assert forall|i: int| 0 <= i < art.len() implies (#[trigger] art[i]).len() <= widest(
            art,
        ) by {
            if i < front.len() {
                assert(front[i] == art[i]);
            }
        }
        if art.last().len() >= widest(front) {
            assert(art[art.len() - 1].len() == widest(art));
        } else {
            let k: int = choose|k: int|
                0 <= k < front.len() && (#[trigger] front[k]).len() == widest(front);
            assert(art[k].len() == widest(art));
        }
    }
}

/// Every art cell is as wide as the widest line of the art.
pub proof fn lemma_art_cell_width(art: Seq<Seq<char>>, i: int)
    ensures
        art_cell(art, i).len() == widest(art),
{
    lemma_widest(art);
}

/// There are as many rows as the longer of the two lists has entries.
pub proof fn lemma_row_count(art: Seq<Seq<char>>, metrics: Seq<Seq<char>>)
    ensures
        rendered(art, metrics).len() == row_count(art, metrics),
        rendered(art, metrics).len() >= art.len(),
        rendered(art, metrics).len() >= metrics.len(),
        rendered(art, metrics).len() == art.len() || rendered(art, metrics).len()
            == metrics.len(),
{
}

/// Every metric starts at the metric column, in a row with art and in a row
/// below the art alike: the row is that many columns of art, padding and
/// gap, and then the metric.
pub proof fn lemma_metric_alignment(art: Seq<Seq<char>>, metrics: Seq<Seq<char>>, i: int)
    requires
        0 <= i < metrics.len(),
    ensures
        rendered(art, metrics)[i].len() == metric_column(art) + metrics[i].len(),
        rendered(art, metrics)[i].skip(metric_column(art) as int) == metrics[i],
        rendered(art, metrics)[i].take(metric_column(art) as int) == art_cell(art, i) + blank(
            gap_of(art),
        ),
{
    lemma_art_cell_width(art, i);
}

/// A row below the art is blank up to the metric column and then the metric.
pub proof fn lemma_row_below_art(art: Seq<Seq<char>>, metrics: Seq<Seq<char>>, i: int)
    requires
        art.len() <= i < metrics.len(),
    ensures
        rendered(art, metrics)[i] == blank(metric_column(art)) + metrics[i],
{
    assert(blank(widest(art)) + blank(gap_of(art)) =~= blank(metric_column(art)));
}

/// A row below the metrics is the line of the art, padded to the widest
/// width and followed by the gap, and nothing more.
pub proof fn lemma_row_below_metrics(art: Seq<Seq<char>>, metrics: Seq<Seq<char>>, i: int)
    requires
        metrics.len() <= i < art.len(),
    ensures
        rendered(art, metrics)[i] == art[i] + blank((widest(art) - art[i].len()) as nat) + blank(
            GAP as nat,
        ),
{
    assert(row(art, metrics, i) =~= art[i] + blank((widest(art) - art[i].len()) as nat) + blank(
        GAP as nat,
    ));
}

/// Without art the rows are the metrics as they are, with neither padding
/// nor gap.
pub proof fn lemma_without_art(metrics: Seq<Seq<char>>)
    ensures
        rendered(Seq::empty(), metrics) == metrics,
{
}

/// Without metrics each row is a line of the art, padded to the widest width
/// and followed by the gap, and nothing more.
pub proof fn lemma_without_metrics(art: Seq<Seq<char>>)
    ensures
        rendered(art, Seq::empty()).len() == art.len(),
        forall|i: int|
            0 <= i < art.len() ==> #[trigger] rendered(art, Seq::empty())[i] == art[i] + blank(
                (widest(art) - art[i].len()) as nat,
            ) + blank(GAP as nat),
{
    assert forall|i: int| 0 <= i < art.len() implies #[trigger] rendered(art, Seq::empty())[i]
        == art[i] + blank((widest(art) - art[i].len()) as nat) + blank(GAP as nat) by {
        lemma_row_below_metrics(art, Seq::empty(), i);
    }
}

/// With neither art nor metrics there are no rows.
pub proof fn lemma_nothing_to_show()
    ensures
        rendered(Seq::empty(), Seq::empty()).len() == 0,
{
}

/// Measures the widest line of the art in Unicode scalar values.
pub fn widest_width(art: &Vec<String>) -> (widest_so_far: usize)
    ensures
        widest_so_far == widest(texts(art@)),
{
    let mut widest_so_far: usize = 0;
    let mut i: usize = 0;
    while i < art.len()
        invariant
            i <= art.len(),
            widest_so_far == widest(texts(art@).take(i as int)),
        decreases art.len() - i,
    {
        let line_width: usize = width(art[i].as_str());
        proof {
            let seen: Seq<Seq<char>> = texts(art@).take(i + 1);
            assert(seen.drop_last() =~= texts(art@).take(i as int));
        }
        if line_width >= widest_so_far {
            widest_so_far = line_width;
        }
        i = i + 1;
    }
    proof {
        assert(texts(art@).take(art@.len() as int) =~= texts(art@));
    }
    widest_so_far
}

/// The width of the gap for an art block: nothing without art, `GAP` with it.
pub fn gap_width(art: &Vec<String>) -> (gap: usize)
    ensures
        gap == gap_of(texts(art@)),
{
    if art.len() == 0 {
        0
    } else {
        GAP
    }
}

/// Merges an art block and a list of metric lines into rows.
///
/// There are as many rows as the longer list has entries. Each row is the art
/// line padded with spaces to the widest art width (all spaces where the art
/// has ended), then the gap, then the metric (nothing where the metrics have
/// ended). Without art there is neither padding nor gap.
pub fn layout(art: &Vec<String>, metrics: &Vec<String>) -> (rows: Vec<String>)
    ensures
        texts(rows@) == rendered(texts(art@), texts(metrics@)),
        rows@.len() == row_count(texts(art@), texts(metrics@)),
        forall|i: int|
            0 <= i < rows@.len() ==> (#[trigger] rows@[i])@ == row(texts(art@), texts(metrics@), i),
        forall|i: int| 0 <= i < art@.len() ==> (#[trigger] art@[i])@.len() <= widest(texts(art@)),
        art@.len() > 0 ==> exists|i: int|
            0 <= i < art@.len() && (#[trigger] art@[i])@.len() == widest(texts(art@)),
        forall|i: int|
            0 <= i < metrics@.len() ==> (#[trigger] rows@[i])@.skip(
                metric_column(texts(art@)) as int,
            ) == metrics@[i]@,
        art@.len() == 0 ==> texts(rows@) == texts(metrics@),
        metrics@.len() == 0 ==> forall|i: int|
            0 <= i < art@.len() ==> (#[trigger] rows@[i])@ == art@[i]@ + blank(
                (widest(texts(art@)) - art@[i]@.len()) as nat,
            ) + blank(GAP as nat),
{
    let widest_art: usize = widest_width(art);
    let gap: String = spaces(gap_width(art));
    let count: usize = if art.len() >= metrics.len() {
        art.len()
    } else {
        metrics.len()
    };
    let ghost art_text: Seq<Seq<char>> = texts(art@);
    let ghost metric_text: Seq<Seq<char>> = texts(metrics@);
    let mut rows: Vec<String> = Vec::new();
    let mut i: usize = 0;
    while i < count
        invariant
            i <= count,
            count == row_count(art_text, metric_text),
            art_text == texts(art@),
            metric_text == texts(metrics@),
            widest_art == widest(art_text),
            gap@ == blank(gap_of(art_text)),
            rows@.len() == i,
            forall|k: int| 0 <= k < i ==> (#[trigger] rows@[k])@ == row(art_text, metric_text, k),
        decreases count - i,
    {
        let mut line: String;
        if i < art.len() {
            let art_line: &str = art[i].as_str();
            proof {
                lemma_widest(art_text);
                assert(art_text[i as int] == art_line@);
            }
            let padding: String = spaces(widest_art - width(art_line));
            line = String::from_str(art_line);
            line.append(padding.as_str());
        } else {
            line = spaces(widest_art);
        }
        line.append(gap.as_str());
        if i < metrics.len() {
            line.append(metrics[i].as_str());
        }
        rows.push(line);
        i = i + 1;
    }
    proof {
        lemma_widest(art_text);
        assert forall|i: int| 0 <= i < art@.len() implies (#[trigger] art@[i])@.len() <= widest(
            art_text,
        ) by {
            assert(art_text[i] == art@[i]@);
        }
        assert forall|i: int| 0 <= i < metrics@.len() implies (#[trigger] rows@[i])@.skip(
            metric_column(art_text) as int,
        ) == metrics@[i]@ by {
            lemma_metric_alignment(art_text, metric_text, i);
        }
        if art@.len() == 0 {
            lemma_without_art(metric_text);
        }
        if metrics@.len() == 0 {
            lemma_without_metrics(art_text);
        }
    }
    rows
}

} // verus!
