use luminance_glyph::{
    CycleStep, PipelineState, ProcessCycle, ProcessError, ProcessOutcome, MAX_RESIZES,
    MAX_TEXTURE_DIMENSION,
};

#[test]
fn draw_outcome_uploads() {
    let mut cycle = ProcessCycle::new(MAX_TEXTURE_DIMENSION);
    let mut state = PipelineState::new((256, 256));
    let step = cycle.step(&mut state, ProcessOutcome::Draw { instance_count: 12 });
    assert_eq!(step, CycleStep::Upload);
    assert_eq!(state.instances, Some(12));
    assert_eq!(cycle.resizes, 0);
}

#[test]
fn empty_queue_without_upload_draws_nothing() {
    let mut cycle = ProcessCycle::new(2048);
    let mut state = PipelineState::new((256, 256));
    assert_eq!(cycle.step(&mut state, ProcessOutcome::ReDraw), CycleStep::Keep);
    assert_eq!(state.draw_call(None), None);
}

#[test]
fn redraw_keeps_previous_draw_call() {
    let mut cycle = ProcessCycle::new(2048);
    let mut state = PipelineState::new((256, 256));
    cycle.step(&mut state, ProcessOutcome::Draw { instance_count: 4 });
    let before = state.draw_call(None);
    let kept = state;
    assert_eq!(cycle.step(&mut state, ProcessOutcome::ReDraw), CycleStep::Keep);
    assert_eq!(state, kept);
    assert_eq!(state.draw_call(None), before);
}

#[test]
fn overflow_resizes_to_suggestion() {
    let mut cycle = ProcessCycle::new(2048);
    let mut state = PipelineState::new((256, 256));
    let step = cycle.step(
        &mut state,
        ProcessOutcome::TextureTooSmall { suggested_width: 300, suggested_height: 300 },
    );
    assert_eq!(step, CycleStep::Resize { width: 300, height: 300 });
    assert_eq!((state.atlas_width, state.atlas_height), (300, 300));
    assert_eq!(cycle.resizes, 1);
}

#[test]
fn overflow_past_cap_resizes_to_cap() {
    let mut cycle = ProcessCycle::new(2048);
    let mut state = PipelineState::new((2000, 2000));
    let step = cycle.step(
        &mut state,
        ProcessOutcome::TextureTooSmall { suggested_width: 3000, suggested_height: 3000 },
    );
    assert_eq!(step, CycleStep::Resize { width: 2048, height: 2048 });
    assert_eq!((state.atlas_width, state.atlas_height), (2048, 2048));
}

#[test]
fn overflow_at_cap_fails() {
    let mut cycle = ProcessCycle::new(2048);
    let mut state = PipelineState::new((2048, 2048));
    let step = cycle.step(
        &mut state,
        ProcessOutcome::TextureTooSmall { suggested_width: 4096, suggested_height: 4096 },
    );
    assert_eq!(
        step,
        CycleStep::Fail(ProcessError::AtlasAtCapacity { width: 2048, height: 2048 })
    );
    assert_eq!((state.atlas_width, state.atlas_height), (2048, 2048));
    assert_eq!(cycle.resizes, 0);
}

#[test]
fn full_cycle_grows_then_uploads() {
    let mut cycle = ProcessCycle::new(2048);
    let mut state = PipelineState::new((256, 256));
    let mut steps = Vec::new();
    let outcomes = [
        ProcessOutcome::TextureTooSmall { suggested_width: 512, suggested_height: 512 },
        ProcessOutcome::TextureTooSmall { suggested_width: 1024, suggested_height: 1024 },
        ProcessOutcome::Draw { instance_count: 40 },
    ];
    for outcome in outcomes {
        steps.push(cycle.step(&mut state, outcome));
    }
    assert_eq!(
        steps,
        vec![
            CycleStep::Resize { width: 512, height: 512 },
            CycleStep::Resize { width: 1024, height: 1024 },
            CycleStep::Upload,
        ]
    );
    let call = state.draw_call(None).unwrap();
    assert_eq!((call.atlas_width, call.atlas_height, call.instance_count), (1024, 1024, 40));
}

#[test]
fn endless_overflow_stops_after_bound() {
    let mut cycle = ProcessCycle::new(u32::MAX);
    let mut state = PipelineState::new((1, 1));
    for i in 0..MAX_RESIZES {
        let step = cycle.step(
            &mut state,
            ProcessOutcome::TextureTooSmall { suggested_width: 2 + i, suggested_height: 2 + i },
        );
        assert_eq!(step, CycleStep::Resize { width: 2 + i, height: 2 + i });
    }
    assert_eq!(cycle.resizes, MAX_RESIZES);
    let step = cycle.step(
        &mut state,
        ProcessOutcome::TextureTooSmall { suggested_width: 100, suggested_height: 100 },
    );
    assert_eq!(step, CycleStep::Fail(ProcessError::TooManyResizes));
    assert_eq!((state.atlas_width, state.atlas_height), (1 + MAX_RESIZES, 1 + MAX_RESIZES));
}
