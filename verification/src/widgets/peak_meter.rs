//! The peak meter's scale beneath its bar.

use vstd::prelude::*;

verus! {

/// What a tick of the meter's scale is labelled with.
#[derive(Debug, Clone, Copy, PartialEq, Eq, Structural)]
pub enum TickLabel {
    /// Minus infinity, for the first tick.
    MinusInfinity,
    /// The tick's value in decibels.
    Decibels(i32),
    /// The unit, `dBFS`, at the last position.
    Dbfs,
}

/// One position of the meter's scale.
#[derive(Debug, Clone, Copy, PartialEq, Eq, Structural)]
pub struct TickMark {
    /// The label shown.
    pub label: TickLabel,
    /// Whether a tick line is drawn above the label.
    pub has_tick: bool,
    /// Whether a flexible space follows this position.
    pub spacer_after: bool,
}

/// The decibel values of the scale's positions: the first stands for minus infinity, the last
/// place holds the unit.
pub open spec fn spec_text_ticks() -> Seq<i32> {
    seq![-80i32, -60i32, -40i32, -20i32, 0i32, 12i32]
}

/// The decibel values of the scale's positions.
pub fn text_ticks() -> (r: Vec<i32>)
    ensures
        r@ == spec_text_ticks(),
{
    let mut v: Vec<i32> = Vec::new();
    v.push(-80);
    v.push(-60);
    v.push(-40);
    v.push(-20);
    v.push(0);
    v.push(12);
    assert(v@ == spec_text_ticks());
    v
}

/// The mark for the value `db` on a scale whose first value is `first` and last is `last`: a value
/// equal to the first is labelled minus infinity, one equal to the last gets the unit, with no
/// tick line and no space after it.
pub open spec fn spec_tick_mark(db: i32, first: i32, last: i32) -> TickMark {
    TickMark {
        label: if db == first {
            TickLabel::MinusInfinity
        } else if db == last {
            TickLabel::Dbfs
        } else {
            TickLabel::Decibels(db)
        },
        has_tick: db != last,
        spacer_after: db != last,
    }
}

/// The marks of a scale, one per value, in order.
pub open spec fn spec_tick_marks(ticks: Seq<i32>) -> Seq<TickMark> {
    ticks.map_values(|db: i32| spec_tick_mark(db, ticks[0], ticks.last()))
}

/// Lays out the scale for the given decibel values.
pub fn tick_marks(ticks: &Vec<i32>) -> (r: Vec<TickMark>)
    requires
        ticks@.len() > 0,
    ensures
        r@ == spec_tick_marks(ticks@),
{
    let n = ticks.len();
    let first = ticks[0];
    let last = ticks[n - 1];
    let mut out: Vec<TickMark> = Vec::new();
    let mut i: usize = 0;
    while i < n
        invariant
            n == ticks@.len(),
            n > 0,
            first == ticks@[0],
            last == ticks@.last(),
            i <= n,
            out@ == spec_tick_marks(ticks@).take(i as int),
        decreases n - i,
    {
        let db = ticks[i];
        let label = if db == first {
            TickLabel::MinusInfinity
        } else if db == last {
            TickLabel::Dbfs
        } else {
            TickLabel::Decibels(db)
        };
        out.push(TickMark { label, has_tick: db != last, spacer_after: db != last });
        assert(spec_tick_marks(ticks@).take(i + 1) == spec_tick_marks(ticks@).take(i as int).push(
            spec_tick_marks(ticks@)[i as int],
        ));
        i = i + 1;
    }
    assert(spec_tick_marks(ticks@).take(n as int) == spec_tick_marks(ticks@));
    out
}

/// The meter's own scale reads, from left to right: minus infinity, -60, -40, -20 and 0 decibels,
/// each with a tick line and followed by a space, and the unit `dBFS` last, with no tick line and
/// nothing after it.
pub proof fn lemma_meter_scale()
    ensures
        spec_tick_marks(spec_text_ticks()).len() == 6,
        spec_tick_marks(spec_text_ticks())[0] == (TickMark {
            label: TickLabel::MinusInfinity,
            has_tick: true,
            spacer_after: true,
        }),
        spec_tick_marks(spec_text_ticks())[1] == (TickMark {
            label: TickLabel::Decibels(-60i32),
            has_tick: true,
            spacer_after: true,
        }),
        spec_tick_marks(spec_text_ticks())[2] == (TickMark {
            label: TickLabel::Decibels(-40i32),
            has_tick: true,
            spacer_after: true,
        }),
        spec_tick_marks(spec_text_ticks())[3] == (TickMark {
            label: TickLabel::Decibels(-20i32),
            has_tick: true,
            spacer_after: true,
        }),
        spec_tick_marks(spec_text_ticks())[4] == (TickMark {
            label: TickLabel::Decibels(0i32),
            has_tick: true,
            spacer_after: true,
        }),
        spec_tick_marks(spec_text_ticks())[5] == (TickMark {
            label: TickLabel::Dbfs,
            has_tick: false,
            spacer_after: false,
        }),
{
}

/// On any scale whose first and last values differ from every other value, the first value is
/// labelled minus infinity, the last one gets the unit with no tick and no space after it, and
/// every value in between is labelled with itself, with a tick and a space after it.
pub proof fn lemma_tick_marks_label_ends(ticks: Seq<i32>)
    requires
        ticks.len() >= 2,
        forall|i: int| 0 < i < ticks.len() ==> #[trigger] ticks[i] != ticks[0],
        forall|i: int| 0 <= i < ticks.len() - 1 ==> #[trigger] ticks[i] != ticks.last(),
    ensures
        spec_tick_marks(ticks).len() == ticks.len(),
        spec_tick_marks(ticks)[0].label == TickLabel::MinusInfinity,
        spec_tick_marks(ticks)[0].has_tick,
        spec_tick_marks(ticks).last() == (TickMark {
            label: TickLabel::Dbfs,
            has_tick: false,
            spacer_after: false,
        }),
        forall|i: int|
            0 < i < ticks.len() - 1 ==> #[trigger] spec_tick_marks(ticks)[i] == (TickMark {
                label: TickLabel::Decibels(ticks[i]),
                has_tick: true,
                spacer_after: true,
            }),
{
    assert(ticks[ticks.len() - 1] == ticks.last());
    assert(ticks[0] != ticks.last());
}

} // verus!
