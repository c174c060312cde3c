use cargo_embed::progress::{total_size, Bar, FlashEvent, ProgressOp, ProgressPlan};

fn plan(fill: bool, layout_path: Option<&str>) -> ProgressPlan<String> {
    ProgressPlan { fill, layout_path: layout_path.map(|p| p.to_string()) }
}

fn setup() -> FlashEvent {
    FlashEvent::Initialized {
        pages: vec![4096, 4096, 100],
        sectors: vec![8192, 8192],
        fills: vec![12],
    }
}

fn position(bar: Bar, ops: &[ProgressOp]) -> u64 {
    ops.iter()
        .map(|op| match op {
            ProgressOp::Advance(moved, by) if *moved == bar => *by,
            _ => 0,
        })
        .sum()
}

fn length(bar: Bar, ops: &[ProgressOp]) -> u64 {
    let mut length = 0;
    for op in ops {
        match op {
            ProgressOp::SetLength(set, to) if *set == bar => length = *to,
            _ => (),
        }
    }
    length
}

#[test]
fn totals() {
    assert_eq!(total_size(&vec![]), Some(0));
    assert_eq!(total_size(&vec![1, 2, 3]), Some(6));
    assert_eq!(total_size(&vec![u32::MAX, 0]), Some(u32::MAX));
    assert_eq!(total_size(&vec![u32::MAX, 1, 0]), None);
}

#[test]
fn sizes_out_of_range() {
    let huge = vec![u32::MAX, u32::MAX];
    assert!(setup().is_in_range());
    assert!(FlashEvent::PageFlashed(u32::MAX).is_in_range());
    let event = FlashEvent::Initialized { pages: huge.clone(), sectors: vec![], fills: vec![] };
    assert!(!event.is_in_range());
    let event = FlashEvent::Initialized { pages: vec![], sectors: huge.clone(), fills: vec![] };
    assert!(!event.is_in_range());
    let event = FlashEvent::Initialized { pages: vec![], sectors: vec![], fills: huge };
    assert!(!event.is_in_range());
}

#[test]
fn bars_and_labels() {
    assert_eq!(plan(true, None).bars(), vec![Bar::Fill, Bar::Erase, Bar::Program]);
    assert_eq!(plan(false, None).bars(), vec![Bar::Erase, Bar::Program]);
    assert_eq!(Bar::Fill.label(), "     Reading flash  ");
    assert_eq!(Bar::Erase.label(), "     Erasing sectors");
    assert_eq!(Bar::Program.label(), " Programming pages  ");
    assert!(Bar::Erase.takes_lines());
    assert!(!Bar::Fill.takes_lines() && !Bar::Program.takes_lines());
}

#[test]
fn setup_sets_the_lengths() {
    assert_eq!(
        plan(true, Some("layout.svg")).react(&setup()),
        vec![
            ProgressOp::SetLength(Bar::Fill, 12),
            ProgressOp::SetLength(Bar::Erase, 16384),
            ProgressOp::SetLength(Bar::Program, 8292),
            ProgressOp::WriteLayout,
        ]
    );
    assert_eq!(
        plan(false, None).react(&setup()),
        vec![
            ProgressOp::SetLength(Bar::Erase, 16384),
            ProgressOp::SetLength(Bar::Program, 8292),
        ]
    );
}

#[test]
fn each_event_with_all_bars() {
    let plan = plan(true, None);
    let cases = vec![
        (
            FlashEvent::StartedFlashing,
            vec![ProgressOp::Tick(Bar::Program, 100), ProgressOp::ResetElapsed(Bar::Program)],
        ),
        (
            FlashEvent::StartedErasing,
            vec![ProgressOp::Tick(Bar::Erase, 100), ProgressOp::ResetElapsed(Bar::Erase)],
        ),
        (
            FlashEvent::StartedFilling,
            vec![ProgressOp::Tick(Bar::Fill, 100), ProgressOp::ResetElapsed(Bar::Fill)],
        ),
        (FlashEvent::PageFlashed(7), vec![ProgressOp::Advance(Bar::Program, 7)]),
        (FlashEvent::SectorErased(8), vec![ProgressOp::Advance(Bar::Erase, 8)]),
        (FlashEvent::PageFilled(9), vec![ProgressOp::Advance(Bar::Fill, 9)]),
        (
            FlashEvent::FailedErasing,
            vec![ProgressOp::Abandon(Bar::Erase), ProgressOp::Abandon(Bar::Program)],
        ),
        (FlashEvent::FinishedErasing, vec![ProgressOp::Finish(Bar::Erase)]),
        (FlashEvent::FailedProgramming, vec![ProgressOp::Abandon(Bar::Program)]),
        (FlashEvent::FinishedProgramming, vec![ProgressOp::Finish(Bar::Program)]),
        (FlashEvent::FailedFilling, vec![ProgressOp::Abandon(Bar::Fill)]),
        (FlashEvent::FinishedFilling, vec![ProgressOp::Finish(Bar::Fill)]),
    ];
    for (event, ops) in cases {
        assert_eq!(plan.react(&event), ops);
    }
}

#[test]
fn missing_bar_is_left_alone() {
    let plan = plan(false, None);
    for event in [
        FlashEvent::StartedFilling,
        FlashEvent::PageFilled(9),
        FlashEvent::FailedFilling,
        FlashEvent::FinishedFilling,
    ] {
        assert_eq!(plan.react(&event), vec![]);
    }
}

#[test]
fn bars_complete_with_the_work() {
    let plan = plan(true, None);
    let events = [
        setup(),
        FlashEvent::StartedFilling,
        FlashEvent::PageFilled(12),
        FlashEvent::FinishedFilling,
        FlashEvent::StartedErasing,
        FlashEvent::SectorErased(8192),
        FlashEvent::SectorErased(8192),
        FlashEvent::FinishedErasing,
        FlashEvent::StartedFlashing,
        FlashEvent::PageFlashed(4096),
        FlashEvent::PageFlashed(4096),
        FlashEvent::PageFlashed(100),
    ];
    let mut ops = Vec::new();
    for (i, event) in events.iter().enumerate() {
        ops.extend(plan.react(event));
        if i == 10 {
            assert_ne!(position(Bar::Program, &ops), length(Bar::Program, &ops));
        }
    }
    for bar in plan.bars() {
        assert_eq!(position(bar, &ops), length(bar, &ops));
    }
    assert_eq!(position(Bar::Program, &ops), 8292);
}
