//! The intervals that the automatic loop can run at.

use vstd::prelude::*;

verus! {

/// The number of intervals on offer.
pub const INTERVAL_COUNT: usize = 8;

/// The length of each interval in seconds.
pub const INTERVAL_SECS: [u64; 8] = [5, 30, 60, 120, 300, 600, 900, 1800];

/// The name shown for each interval.
pub const INTERVAL_LABELS: [&'static str; 8] = [
    "5 giây",
    "30 giây",
    "1 phút",
    "2 phút",
    "5 phút",
    "10 phút",
    "15 phút",
    "30 phút",
];

/// A time between two runs of the automatic loop.
#[derive(Clone, Copy, Debug, PartialEq, Eq)]
pub struct IntervalOpt {
    pub secs: u64,
    pub label: &'static str,
}

/// The interval at a place in the list.
pub open spec fn interval_at(idx: int) -> IntervalOpt {
    IntervalOpt { secs: INTERVAL_SECS@[idx], label: INTERVAL_LABELS@[idx] }
}

/// How a length of time is worded: in seconds below a minute, else in minutes.
pub open spec fn worded(secs: nat) -> Seq<char> {
    if secs < 60 {
        crate::text::decimal(secs) + " giây"@
    } else {
        crate::text::decimal(secs / 60) + " phút"@
    }
}

/// The interval at a place in the list.
pub fn interval(idx: usize) -> (opt: IntervalOpt)
    requires
        idx < INTERVAL_COUNT,
    ensures
        opt == interval_at(idx as int),
        opt.secs == INTERVAL_SECS@[idx as int],
        opt.label == INTERVAL_LABELS@[idx as int],
{
    IntervalOpt { secs: INTERVAL_SECS[idx], label: INTERVAL_LABELS[idx] }
}

/// Every interval, in the order in which they are offered.
pub fn intervals() -> (table: [IntervalOpt; 8])
    ensures
        forall|i: int| 0 <= i < INTERVAL_COUNT ==> #[trigger] table@[i] == interval_at(i),
        forall|i: int|
            0 <= i < INTERVAL_COUNT ==> (#[trigger] table@[i]).secs == INTERVAL_SECS@[i]
                && table@[i].label == INTERVAL_LABELS@[i],
{
    [
        interval(0),
        interval(1),
        interval(2),
        interval(3),
        interval(4),
        interval(5),
        interval(6),
        interval(7),
    ]
}

/// The intervals are offered from the shortest to the longest, and none is
/// empty.
pub proof fn law_intervals_grow(i: int, j: int)
    requires
        0 <= i < j < INTERVAL_COUNT,
    ensures
        0 < interval_at(i).secs < interval_at(j).secs,
{
}

/// The name of an interval is its length: whole seconds below a minute, whole
/// minutes from there on.
pub proof fn law_labels_word_the_length(i: int)
    requires
        0 <= i < INTERVAL_COUNT,
    ensures
        interval_at(i).label@ == worded(interval_at(i).secs as nat),
        interval_at(i).secs >= 60 ==> interval_at(i).secs % 60 == 0,
{
    reveal_with_fuel(crate::text::decimal, 3);
    reveal_strlit(" giây");
    reveal_strlit(" phút");
    reveal_strlit("5 giây");
    reveal_strlit("30 giây");
    reveal_strlit("1 phút");
    reveal_strlit("2 phút");
    reveal_strlit("5 phút");
    reveal_strlit("10 phút");
    reveal_strlit("15 phút");
    reveal_strlit("30 phút");
    assert(interval_at(i).label@ =~= worded(interval_at(i).secs as nat));
}

} // verus!
