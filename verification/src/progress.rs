//! The progress bars of flashing: what each event of the flasher does to them.
use vstd::prelude::*;

verus! {

/// A progress bar.
#[derive(Debug, Clone, Copy, PartialEq, Eq, Structural)]
pub enum Bar {
    /// Reading what has to be written back.
    Fill,
    /// Erasing sectors.
    Erase,
    /// Programming pages.
    Program,
}

/// Which bars there are, and where a picture of the flash layout goes. `T` is a text.
#[derive(Debug, PartialEq, Eq)]
pub struct ProgressPlan<T> {
    /// Whether there is a bar for reading what has to be written back.
    pub fill: bool,
    /// Where the picture goes, if one is wanted.
    pub layout_path: Option<T>,
}

/// What the flasher reports.
#[derive(Debug, PartialEq, Eq)]
pub enum FlashEvent {
    /// Flashing is set up; these are the sizes of the pages, sectors and fills it consists of.
    Initialized { pages: Vec<u32>, sectors: Vec<u32>, fills: Vec<u32> },
    StartedFlashing,
    StartedErasing,
    StartedFilling,
    /// A page of the given size was programmed.
    PageFlashed(u32),
    /// A sector of the given size was erased.
    SectorErased(u32),
    /// A page of the given size was read.
    PageFilled(u32),
    FailedErasing,
    FinishedErasing,
    FailedProgramming,
    FinishedProgramming,
    FailedFilling,
    FinishedFilling,
}

/// One thing to do about the bars.
#[derive(Debug, Clone, Copy, PartialEq, Eq, Structural)]
pub enum ProgressOp {
    /// Set what counts as complete.
    SetLength(Bar, u64),
    /// Redraw every so many milliseconds.
    Tick(Bar, u64),
    /// Begin to count the time anew.
    ResetElapsed(Bar),
    /// Move forward.
    Advance(Bar, u64),
    /// Leave the bar as it stands.
    Abandon(Bar),
    /// Complete the bar.
    Finish(Bar),
    /// Draw the picture of the flash layout.
    WriteLayout,
}

/// The sum of some sizes.
pub open spec fn total(sizes: Seq<u32>) -> nat
    decreases sizes.len(),
{
    if sizes.len() == 0 {
        0
    } else {
        total(sizes.drop_last()) + sizes.last() as nat
    }
}

proof fn lemma_total_of_prefix(sizes: Seq<u32>, count: int)
    requires
        0 <= count <= sizes.len(),
    ensures
        total(sizes.take(count)) <= total(sizes),
    decreases sizes.len(),
{
    if count < sizes.len() {
        lemma_total_of_prefix(sizes.drop_last(), count);
        assert(sizes.drop_last().take(count) =~= sizes.take(count));
    } else {
        assert(sizes.take(count) =~= sizes);
    }
}

/// The sum of some sizes, if 32 bits hold it.
pub fn total_size(sizes: &Vec<u32>) -> (sum: Option<u32>)
    ensures
        match sum {
            Some(n) => n == total(sizes@),
            None => total(sizes@) > u32::MAX,
        },
{
    let mut sum: u32 = 0;
    let mut i: usize = 0;
    assert(sizes@.take(0) =~= Seq::empty());
    while i < sizes.len()
        invariant
            i <= sizes.len(),
            sum == total(sizes@.take(i as int)),
        decreases sizes.len() - i,
    {
        proof {
            assert(sizes@.take(i + 1).drop_last() =~= sizes@.take(i as int));
            lemma_total_of_prefix(sizes@, i + 1);
        }
        match sum.checked_add(sizes[i]) {
            Some(next) => {
                sum = next;
            },
            None => {
                return None;
            },
        }
        i += 1;
    }
    assert(sizes@.take(i as int) =~= sizes@);
    Some(sum)
}

impl FlashEvent {
    /// Whether 32 bits hold each sum of sizes that the event gives rise to.
    pub open spec fn in_range(self) -> bool {
        match self {
            FlashEvent::Initialized { pages, sectors, fills } => {
                &&& total(pages@) <= u32::MAX
                &&& total(sectors@) <= u32::MAX
                &&& total(fills@) <= u32::MAX
            },
            _ => true,
        }
    }

    /// Whether 32 bits hold each sum of sizes that the event gives rise to.
    pub fn is_in_range(&self) -> (fits: bool)
        ensures
            fits == self.in_range(),
    {
        match self {
            FlashEvent::Initialized { pages, sectors, fills } => {
                total_size(pages).is_some() && total_size(sectors).is_some() && total_size(
                    fills,
                ).is_some()
            },
            _ => true,
        }
    }
}

/// What to do about the bar for reading, if there is one.
pub open spec fn if_filling(fill: bool, ops: Seq<ProgressOp>) -> Seq<ProgressOp> {
    if fill {
        ops
    } else {
        Seq::empty()
    }
}

/// What to do about the bars when the flasher reports an event.
pub open spec fn ops_of(fill: bool, draw: bool, event: FlashEvent) -> Seq<ProgressOp> {
    match event {
        FlashEvent::Initialized { pages, sectors, fills } => if_filling(
            fill,
            seq![ProgressOp::SetLength(Bar::Fill, total(fills@) as u64)],
        ) + seq![
            ProgressOp::SetLength(Bar::Erase, total(sectors@) as u64),
            ProgressOp::SetLength(Bar::Program, total(pages@) as u64),
        ] + (if draw {
            seq![ProgressOp::WriteLayout]
        } else {
            Seq::empty()
        }),
        FlashEvent::StartedFlashing => seq![
            ProgressOp::Tick(Bar::Program, 100),
            ProgressOp::ResetElapsed(Bar::Program),
        ],
        FlashEvent::StartedErasing => seq![
            ProgressOp::Tick(Bar::Erase, 100),
            ProgressOp::ResetElapsed(Bar::Erase),
        ],
        FlashEvent::StartedFilling => if_filling(
            fill,
            seq![ProgressOp::Tick(Bar::Fill, 100), ProgressOp::ResetElapsed(Bar::Fill)],
        ),
        FlashEvent::PageFlashed(size) => seq![ProgressOp::Advance(Bar::Program, size as u64)],
        FlashEvent::SectorErased(size) => seq![ProgressOp::Advance(Bar::Erase, size as u64)],
        FlashEvent::PageFilled(size) => if_filling(
            fill,
            seq![ProgressOp::Advance(Bar::Fill, size as u64)],
        ),
        FlashEvent::FailedErasing => seq![
            ProgressOp::Abandon(Bar::Erase),
            ProgressOp::Abandon(Bar::Program),
        ],
        FlashEvent::FinishedErasing => seq![ProgressOp::Finish(Bar::Erase)],
        FlashEvent::FailedProgramming => seq![ProgressOp::Abandon(Bar::Program)],
        FlashEvent::FinishedProgramming => seq![ProgressOp::Finish(Bar::Program)],
        FlashEvent::FailedFilling => if_filling(fill, seq![ProgressOp::Abandon(Bar::Fill)]),
        FlashEvent::FinishedFilling => if_filling(fill, seq![ProgressOp::Finish(Bar::Fill)]),
    }
}

/// The bars from top to bottom.
pub open spec fn bars_of(fill: bool) -> Seq<Bar> {
    if fill {
        seq![Bar::Fill, Bar::Erase, Bar::Program]
    } else {
        seq![Bar::Erase, Bar::Program]
    }
}

/// The text beside a bar.
pub open spec fn label_of(bar: Bar) -> Seq<char> {
    match bar {
        Bar::Fill => "     Reading flash  "@,
        Bar::Erase => "     Erasing sectors"@,
        Bar::Program => " Programming pages  "@,
    }
}

impl Bar {
    /// The text beside the bar.
    pub fn label(self) -> (text: &'static str)
        ensures
            text@ == label_of(self),
    {
        match self {
            Bar::Fill => "     Reading flash  ",
            Bar::Erase => "     Erasing sectors",
            Bar::Program => " Programming pages  ",
        }
    }

    /// Whether lines that are printed meanwhile go above this bar.
    pub fn takes_lines(self) -> (takes: bool)
        ensures
            takes == (self == Bar::Erase),
    {
        self == Bar::Erase
    }
}

impl ProgressPlan<String> {
    /// The bars from top to bottom.
    pub fn bars(&self) -> (bars: Vec<Bar>)
        ensures
            bars@ == bars_of(self.fill),
    {
        let mut bars: Vec<Bar> = Vec::new();
        if self.fill {
            bars.push(Bar::Fill);
        }
        bars.push(Bar::Erase);
        bars.push(Bar::Program);
        bars
    }

    /// What to do about the bars when the flasher reports an event.
    pub fn react(&self, event: &FlashEvent) -> (ops: Vec<ProgressOp>)
        requires
            event.in_range(),
        ensures
            ops@ == ops_of(self.fill, self.layout_path is Some, *event),
    {
        let mut ops: Vec<ProgressOp> = Vec::new();
        match event {
            FlashEvent::Initialized { pages, sectors, fills } => {
                let page_size = total_size(pages).unwrap();
                let sector_size = total_size(sectors).unwrap();
                let fill_size = total_size(fills).unwrap();
                if self.fill {
                    ops.push(ProgressOp::SetLength(Bar::Fill, fill_size as u64));
                }
                ops.push(ProgressOp::SetLength(Bar::Erase, sector_size as u64));
                ops.push(ProgressOp::SetLength(Bar::Program, page_size as u64));
                if self.layout_path.is_some() {
                    ops.push(ProgressOp::WriteLayout);
                }
            },
            FlashEvent::StartedFlashing => {
                ops.push(ProgressOp::Tick(Bar::Program, 100));
                ops.push(ProgressOp::ResetElapsed(Bar::Program));
            },
            FlashEvent::StartedErasing => {
                ops.push(ProgressOp::Tick(Bar::Erase, 100));
                ops.push(ProgressOp::ResetElapsed(Bar::Erase));
            },
            FlashEvent::StartedFilling => {
                if self.fill {
                    ops.push(ProgressOp::Tick(Bar::Fill, 100));
                    ops.push(ProgressOp::ResetElapsed(Bar::Fill));
                }
            },
            FlashEvent::PageFlashed(size) => {
                ops.push(ProgressOp::Advance(Bar::Program, *size as u64));
            },
            FlashEvent::SectorErased(size) => {
                ops.push(ProgressOp::Advance(Bar::Erase, *size as u64));
            },
            FlashEvent::PageFilled(size) => {
                if self.fill {
                    ops.push(ProgressOp::Advance(Bar::Fill, *size as u64));
                }
            },
            FlashEvent::FailedErasing => {
                ops.push(ProgressOp::Abandon(Bar::Erase));
                ops.push(ProgressOp::Abandon(Bar::Program));
            },
            FlashEvent::FinishedErasing => {
                ops.push(ProgressOp::Finish(Bar::Erase));
            },
            FlashEvent::FailedProgramming => {
                ops.push(ProgressOp::Abandon(Bar::Program));
            },
            FlashEvent::FinishedProgramming => {
                ops.push(ProgressOp::Finish(Bar::Program));
            },
            FlashEvent::FailedFilling => {
                if self.fill {
                    ops.push(ProgressOp::Abandon(Bar::Fill));
                }
            },
            FlashEvent::FinishedFilling => {
                if self.fill {
                    ops.push(ProgressOp::Finish(Bar::Fill));
                }
            },
        }
        assert(ops@ =~= ops_of(self.fill, self.layout_path is Some, *event));
        ops
    }
}

/// All that is done about the bars over a series of events.
pub open spec fn ops_over(fill: bool, draw: bool, events: Seq<FlashEvent>) -> Seq<ProgressOp>
    decreases events.len(),
{
    if events.len() == 0 {
        Seq::empty()
    } else {
        ops_over(fill, draw, events.drop_last()) + ops_of(fill, draw, events.last())
    }
}

/// The bar that something is done to, if it is done to one.
pub open spec fn bar_of(op: ProgressOp) -> Option<Bar> {
    match op {
        ProgressOp::SetLength(bar, _) => Some(bar),
        ProgressOp::Tick(bar, _) => Some(bar),
        ProgressOp::ResetElapsed(bar) => Some(bar),
        ProgressOp::Advance(bar, _) => Some(bar),
        ProgressOp::Abandon(bar) => Some(bar),
        ProgressOp::Finish(bar) => Some(bar),
        ProgressOp::WriteLayout => None,
    }
}

/// How far a bar has moved.
pub open spec fn position_after(bar: Bar, ops: Seq<ProgressOp>) -> nat
    decreases ops.len(),
{
    if ops.len() == 0 {
        0
    } else {
        position_after(bar, ops.drop_last()) + (match ops.last() {
            ProgressOp::Advance(moved, by) => if moved == bar {
                by as nat
            } else {
                0
            },
            _ => 0,
        })
    }
}

/// What counts as complete for a bar, which is nothing until it is set.
pub open spec fn length_after(bar: Bar, ops: Seq<ProgressOp>) -> nat
    decreases ops.len(),
{
    if ops.len() == 0 {
        0
    } else {
        match ops.last() {
            ProgressOp::SetLength(set, length) => if set == bar {
                length as nat
            } else {
                length_after(bar, ops.drop_last())
            },
            _ => length_after(bar, ops.drop_last()),
        }
    }
}

/// The size of what an event reports as done, where it belongs to the given bar.
pub open spec fn size_done(bar: Bar, event: FlashEvent) -> Option<u32> {
    match (bar, event) {
        (Bar::Program, FlashEvent::PageFlashed(size)) => Some(size),
        (Bar::Erase, FlashEvent::SectorErased(size)) => Some(size),
        (Bar::Fill, FlashEvent::PageFilled(size)) => Some(size),
        _ => None,
    }
}

/// The sizes of what a series of events reports as done, where they belong to the given bar.
pub open spec fn sizes_done(bar: Bar, events: Seq<FlashEvent>) -> Seq<u32> {
    events.filter_map(|event: FlashEvent| size_done(bar, event))
}

/// The sizes that are planned for a bar.
pub open spec fn sizes_planned(bar: Bar, event: FlashEvent) -> Seq<u32> {
    match (bar, event) {
        (Bar::Program, FlashEvent::Initialized { pages, .. }) => pages@,
        (Bar::Erase, FlashEvent::Initialized { sectors, .. }) => sectors@,
        (Bar::Fill, FlashEvent::Initialized { fills, .. }) => fills@,
        _ => Seq::empty(),
    }
}

proof fn lemma_position_of_sum(bar: Bar, a: Seq<ProgressOp>, b: Seq<ProgressOp>)
    ensures
        position_after(bar, a + b) == position_after(bar, a) + position_after(bar, b),
    decreases b.len(),
{
    if b.len() == 0 {
        assert(a + b =~= a);
    } else {
        assert((a + b).drop_last() =~= a + b.drop_last());
        assert((a + b).last() == b.last());
        lemma_position_of_sum(bar, a, b.drop_last());
    }
}

proof fn lemma_length_of_sum(bar: Bar, a: Seq<ProgressOp>, b: Seq<ProgressOp>)
    requires
        forall|i: int|
            0 <= i < b.len() ==> !(#[trigger] b[i] matches ProgressOp::SetLength(set, _)
                && set == bar),
    ensures
        length_after(bar, a + b) == length_after(bar, a),
    decreases b.len(),
{
    if b.len() == 0 {
        assert(a + b =~= a);
    } else {
        assert((a + b).drop_last() =~= a + b.drop_last());
        assert((a + b).last() == b.last());
        assert(b[b.len() - 1] == b.last());
        assert forall|i: int| 0 <= i < b.drop_last().len() implies !(#[trigger] b.drop_last()[i]
            matches ProgressOp::SetLength(set, _) && set == bar) by {
            assert(b.drop_last()[i] == b[i]);
        }
        lemma_length_of_sum(bar, a, b.drop_last());
    }
}

proof fn lemma_position_of_one(bar: Bar, op: ProgressOp)
    ensures
        position_after(bar, seq![op]) == (match op {
            ProgressOp::Advance(moved, by) => if moved == bar {
                by as nat
            } else {
                0
            },
            _ => 0,
        }),
{
    reveal_with_fuel(position_after, 2);
    assert(seq![op].drop_last() =~= Seq::empty());
    assert(seq![op].last() == op);
}

proof fn lemma_position_unmoved(bar: Bar, ops: Seq<ProgressOp>)
    requires
        forall|i: int| 0 <= i < ops.len() ==> !(#[trigger] ops[i] is Advance),
    ensures
        position_after(bar, ops) == 0,
    decreases ops.len(),
{
    if ops.len() > 0 {
        assert(ops[ops.len() - 1] == ops.last());
        assert forall|i: int| 0 <= i < ops.drop_last().len() implies !(#[trigger] ops.drop_last()[i]
            is Advance) by {
            assert(ops.drop_last()[i] == ops[i]);
        }
        lemma_position_unmoved(bar, ops.drop_last());
    }
}

proof fn lemma_position_of_event(fill: bool, draw: bool, bar: Bar, event: FlashEvent)
    requires
        bar == Bar::Fill ==> fill,
    ensures
        position_after(bar, ops_of(fill, draw, event)) == (match size_done(bar, event) {
            Some(size) => size as nat,
            None => 0,
        }),
{
    let ops = ops_of(fill, draw, event);
    match event {
        FlashEvent::PageFlashed(size) => {
            lemma_position_of_one(bar, ProgressOp::Advance(Bar::Program, size as u64));
        },
        FlashEvent::SectorErased(size) => {
            lemma_position_of_one(bar, ProgressOp::Advance(Bar::Erase, size as u64));
        },
        FlashEvent::PageFilled(size) => {
            lemma_position_of_one(bar, ProgressOp::Advance(Bar::Fill, size as u64));
        },
        _ => {
            lemma_position_unmoved(bar, ops);
        },
    }
}

/// A bar is where the sizes of what was reported as done add up to.
pub proof fn law_bars_move_by_what_is_done(
    fill: bool,
    draw: bool,
    bar: Bar,
    events: Seq<FlashEvent>,
)
    requires
        bar == Bar::Fill ==> fill,
    ensures
        position_after(bar, ops_over(fill, draw, events)) == total(sizes_done(bar, events)),
    decreases events.len(),
{
    let done = |event: FlashEvent| size_done(bar, event);
    if events.len() > 0 {
        let before = events.drop_last();
        let event = events.last();
        law_bars_move_by_what_is_done(fill, draw, bar, before);
        lemma_position_of_sum(bar, ops_over(fill, draw, before), ops_of(fill, draw, event));
        lemma_position_of_event(fill, draw, bar, event);
        let at = events.len() - 1;
        events.lemma_filter_map_take_succ(done, at);
        assert(events.take(at + 1) =~= events);
        assert(events.take(at) =~= before);
        match size_done(bar, event) {
            Some(size) => {
                assert(sizes_done(bar, events) =~= sizes_done(bar, before).push(size));
                assert(sizes_done(bar, events).drop_last() =~= sizes_done(bar, before));
            },
            None => {
                assert(sizes_done(bar, events) =~= sizes_done(bar, before));
            },
        }
    }
}

proof fn lemma_length_over(
    fill: bool,
    draw: bool,
    bar: Bar,
    setup: FlashEvent,
    events: Seq<FlashEvent>,
)
    requires
        bar == Bar::Fill ==> fill,
        setup is Initialized,
        setup.in_range(),
        forall|i: int| 0 <= i < events.len() ==> !(#[trigger] events[i] is Initialized),
    ensures
        length_after(bar, ops_over(fill, draw, seq![setup] + events)) == total(
            sizes_planned(bar, setup),
        ),
    decreases events.len(),
{
    let all = seq![setup] + events;
    if events.len() == 0 {
        reveal_with_fuel(ops_over, 2);
        assert(all.drop_last() =~= Seq::empty());
        assert(all.last() == setup);
        let ops = ops_of(fill, draw, setup);
        assert(ops_over(fill, draw, all) =~= ops);
        let at: int = match bar {
            Bar::Fill => 0,
            Bar::Erase => if fill {
                1
            } else {
                0
            },
            Bar::Program => if fill {
                2
            } else {
                1
            },
        };
        let length = total(sizes_planned(bar, setup)) as u64;
        let upto = ops.take(at + 1);
        let after = ops.skip(at + 1);
        assert(ops =~= upto + after);
        assert(upto.last() == ops[at]);
        assert(ops[at] == ProgressOp::SetLength(bar, length));
        assert forall|i: int| 0 <= i < after.len() implies !(#[trigger] after[i]
            matches ProgressOp::SetLength(set, _) && set == bar) by {
            assert(after[i] == ops[at + 1 + i]);
        }
        lemma_length_of_sum(bar, upto, after);
    } else {
        let before = events.drop_last();
        let event = events.last();
        assert(event == events[events.len() - 1]);
        assert forall|i: int| 0 <= i < before.len() implies !(#[trigger] before[i]
            is Initialized) by {
            assert(before[i] == events[i]);
        }
        lemma_length_over(fill, draw, bar, setup, before);
        assert(all.drop_last() =~= seq![setup] + before);
        assert(all.last() == event);
        lemma_length_of_sum(
            bar,
            ops_over(fill, draw, seq![setup] + before),
            ops_of(fill, draw, event),
        );
    }
}

/// A bar is complete exactly when all that was planned for it has been reported as done.
pub proof fn law_bars_complete_with_the_work(
    fill: bool,
    draw: bool,
    bar: Bar,
    setup: FlashEvent,
    events: Seq<FlashEvent>,
)
    requires
        bar == Bar::Fill ==> fill,
        setup is Initialized,
        setup.in_range(),
        forall|i: int| 0 <= i < events.len() ==> !(#[trigger] events[i] is Initialized),
    ensures
        ({
            let ops = ops_over(fill, draw, seq![setup] + events);
            position_after(bar, ops) == length_after(bar, ops) <==> total(
                sizes_done(bar, events),
            ) == total(sizes_planned(bar, setup))
        }),
{
    let done = |event: FlashEvent| size_done(bar, event);
    let all = seq![setup] + events;
    lemma_length_over(fill, draw, bar, setup, events);
    law_bars_move_by_what_is_done(fill, draw, bar, all);
    lemma_filter_map_skips_first(setup, events, done);
}

proof fn lemma_filter_map_skips_first(
    first: FlashEvent,
    rest: Seq<FlashEvent>,
    f: spec_fn(FlashEvent) -> Option<u32>,
)
    requires
        f(first) is None,
    ensures
        (seq![first] + rest).filter_map(f) == rest.filter_map(f),
    decreases rest.len(),
{
    let all = seq![first] + rest;
    if rest.len() == 0 {
        reveal_with_fuel(Seq::filter_map, 2);
        assert(all.drop_last() =~= Seq::empty());
        assert(all.last() == first);
        assert(all.filter_map(f) =~= rest.filter_map(f));
    } else {
        lemma_filter_map_skips_first(first, rest.drop_last(), f);
        assert(all.drop_last() =~= seq![first] + rest.drop_last());
        assert(all.last() == rest.last());
    }
}

/// Without a bar for reading, nothing is ever done to one.
pub proof fn law_missing_bar_is_left_alone(draw: bool, events: Seq<FlashEvent>, i: int)
    requires
        0 <= i < ops_over(false, draw, events).len(),
    ensures
        bar_of(ops_over(false, draw, events)[i]) != Some(Bar::Fill),
    decreases events.len(),
{
    if events.len() > 0 {
        let before = ops_over(false, draw, events.drop_last());
        if i < before.len() {
            law_missing_bar_is_left_alone(draw, events.drop_last(), i);
        } else {
            let ops = ops_of(false, draw, events.last());
            assert(ops_over(false, draw, events)[i] == ops[i - before.len()]);
        }
    }
}

/// Sizes add up: every size counts, once and in full.
pub proof fn law_totals_add_up(a: Seq<u32>, b: Seq<u32>, size: u32)
    ensures
        total(a + b) == total(a) + total(b),
        total(seq![size]) == size,
    decreases b.len(),
{
    reveal_with_fuel(total, 2);
    assert(seq![size].drop_last() =~= Seq::empty());
    if b.len() == 0 {
        assert(a + b =~= a);
    } else {
        assert((a + b).drop_last() =~= a + b.drop_last());
        assert((a + b).last() == b.last());
        law_totals_add_up(a, b.drop_last(), size);
    }
}

/// Only the sizes of a set-up can be out of range, and they are exactly where 32 bits do not hold
/// the sum of its pages, of its sectors or of its fills.
pub proof fn law_sizes_are_out_of_range_by_their_sums(event: FlashEvent)
    ensures
        !(event is Initialized) ==> event.in_range(),
        event matches FlashEvent::Initialized { pages, sectors, fills } ==> (!event.in_range()
            <==> total(pages@) > 0xffff_ffff || total(sectors@) > 0xffff_ffff || total(fills@)
            > 0xffff_ffff),
{
}

/// Which events make the bars do what. Setting up sets the length of each bar to the size of the
/// work planned for it, and draws the picture where one is wanted. A start makes the bar of that
/// work tick ten times a second and count the time anew; work that is done moves its bar; an end
/// completes its bar. A failure leaves its bar as it stands, and one of erasing the bar for
/// programming too. The bar for reading is touched only where it exists, and nothing else is done.
pub proof fn law_bars_follow_the_flasher(
    fill: bool,
    draw: bool,
    event: FlashEvent,
    op: ProgressOp,
)
    requires
        event.in_range(),
    ensures
        ops_of(fill, draw, event).contains(op) <==> match op {
            ProgressOp::SetLength(bar, length) => (bar == Bar::Fill ==> fill) && match (bar, event) {
                (Bar::Fill, FlashEvent::Initialized { fills, .. }) => length == total(fills@),
                (Bar::Erase, FlashEvent::Initialized { sectors, .. }) => length == total(sectors@),
                (Bar::Program, FlashEvent::Initialized { pages, .. }) => length == total(pages@),
                _ => false,
            },
            ProgressOp::Tick(bar, interval) => (bar == Bar::Fill ==> fill) && interval == 100
                && match bar {
                Bar::Fill => event is StartedFilling,
                Bar::Erase => event is StartedErasing,
                Bar::Program => event is StartedFlashing,
            },
            ProgressOp::ResetElapsed(bar) => (bar == Bar::Fill ==> fill) && match bar {
                Bar::Fill => event is StartedFilling,
                Bar::Erase => event is StartedErasing,
                Bar::Program => event is StartedFlashing,
            },
            ProgressOp::Advance(bar, by) => (bar == Bar::Fill ==> fill) && match (bar, event) {
                (Bar::Fill, FlashEvent::PageFilled(size)) => by == size,
                (Bar::Erase, FlashEvent::SectorErased(size)) => by == size,
                (Bar::Program, FlashEvent::PageFlashed(size)) => by == size,
                _ => false,
            },
            ProgressOp::Abandon(bar) => (bar == Bar::Fill ==> fill) && match bar {
                Bar::Fill => event is FailedFilling,
                Bar::Erase => event is FailedErasing,
                Bar::Program => event is FailedProgramming || event is FailedErasing,
            },
            ProgressOp::Finish(bar) => (bar == Bar::Fill ==> fill) && match bar {
                Bar::Fill => event is FinishedFilling,
                Bar::Erase => event is FinishedErasing,
                Bar::Program => event is FinishedProgramming,
            },
            ProgressOp::WriteLayout => event is Initialized && draw,
        },
{
    let ops = ops_of(fill, draw, event);
    let extra: int = if fill {
        1
    } else {
        0
    };
    match event {
        FlashEvent::Initialized { pages, sectors, fills } => {
            if fill {
                assert(ops[0] == ProgressOp::SetLength(Bar::Fill, total(fills@) as u64));
            }
            assert(ops[extra] == ProgressOp::SetLength(Bar::Erase, total(sectors@) as u64));
            assert(ops[extra + 1] == ProgressOp::SetLength(Bar::Program, total(pages@) as u64));
            if draw {
                assert(ops[extra + 2] == ProgressOp::WriteLayout);
            }
        },
        FlashEvent::StartedFlashing | FlashEvent::StartedErasing | FlashEvent::FailedErasing => {
            assert(ops.contains(ops[0]) && ops.contains(ops[1]));
        },
        FlashEvent::StartedFilling => {
            if fill {
                assert(ops.contains(ops[0]) && ops.contains(ops[1]));
            }
        },
        FlashEvent::PageFilled(_) | FlashEvent::FailedFilling | FlashEvent::FinishedFilling => {
            if fill {
                assert(ops.contains(ops[0]));
            }
        },
        _ => {
            assert(ops.contains(ops[0]));
        },
    }
}

/// Nothing is done twice about one event, and the picture is drawn once the lengths are set.
pub proof fn law_bars_follow_once(fill: bool, draw: bool, event: FlashEvent, i: int)
    requires
        0 <= i < ops_of(fill, draw, event).len(),
    ensures
        ops_of(fill, draw, event).no_duplicates(),
        ops_of(fill, draw, event)[i] is WriteLayout ==> i == ops_of(fill, draw, event).len() - 1,
{
}

/// A bar measures what was planned for it: setting up makes that its length, and nothing that
/// follows changes it.
pub proof fn law_bars_measure_the_plan(
    fill: bool,
    draw: bool,
    bar: Bar,
    setup: FlashEvent,
    events: Seq<FlashEvent>,
)
    requires
        bar == Bar::Fill ==> fill,
        setup is Initialized,
        setup.in_range(),
        forall|i: int| 0 <= i < events.len() ==> !(#[trigger] events[i] is Initialized),
    ensures
        length_after(bar, ops_over(fill, draw, seq![setup] + events)) == total(
            sizes_planned(bar, setup),
        ),
{
    lemma_length_over(fill, draw, bar, setup, events);
}

/// There is a bar for erasing and one for programming below it, each once, and above them one for
/// reading exactly where unwritten bytes are kept. Their texts differ and take the same room.
pub proof fn law_bars_are_in_place(fill: bool, bar: Bar, other: Bar)
    ensures
        bars_of(fill).contains(bar) <==> bar != Bar::Fill || fill,
        bars_of(fill).no_duplicates(),
        bars_of(fill).last() == Bar::Program,
        fill ==> bars_of(fill)[0] == Bar::Fill,
        label_of(bar) == label_of(other) <==> bar == other,
        label_of(bar).len() == label_of(other).len(),
{
    let bars = bars_of(fill);
    assert(bars.contains(bars[0]) && bars.contains(bars[1]) && bars.contains(bars.last()));
    reveal_strlit("     Reading flash  ");
    reveal_strlit("     Erasing sectors");
    reveal_strlit(" Programming pages  ");
    assert(label_of(Bar::Fill)[5] == 'R');
    assert(label_of(Bar::Erase)[5] == 'E');
    assert(label_of(Bar::Program)[5] == 'r');
}

/// Each bar names its work.
pub proof fn law_bars_name_their_work()
    ensures
        label_of(Bar::Fill) == "     Reading flash  "@,
        label_of(Bar::Erase) == "     Erasing sectors"@,
        label_of(Bar::Program) == " Programming pages  "@,
{
}

} // verus!
