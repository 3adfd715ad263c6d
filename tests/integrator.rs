use raytracer::integrator::{advance, next_action, start, Interaction, PathAction, PathState, Terminal};

fn trace(max_depth: u64, events: &[Interaction]) -> (usize, PathAction) {
    let mut state = start(max_depth);
    let mut asked = 0;
    let mut reports = events.iter();
    loop {
        match next_action(state) {
            PathAction::Query => {
                asked += 1;
                let e = *reports.next().expect("a report for every query");
                state = advance(state, e);
            }
            finish => return (asked, finish),
        }
    }
}

#[test]
fn depth_zero_is_black_without_query() {
    assert_eq!(next_action(start(0)), PathAction::Finish { terminal: Terminal::Black });
    assert_eq!(trace(0, &[]), (0, PathAction::Finish { terminal: Terminal::Black }));
}

#[test]
fn depth_zero_ignores_reports() {
    for e in [Interaction::Miss, Interaction::Absorbed, Interaction::Scattered] {
        assert_eq!(advance(start(0), e), PathState::Done { terminal: Terminal::Black });
    }
}

#[test]
fn miss_ends_in_sky() {
    assert_eq!(advance(start(50), Interaction::Miss), PathState::Done { terminal: Terminal::Sky });
    assert_eq!(trace(50, &[Interaction::Miss]), (1, PathAction::Finish { terminal: Terminal::Sky }));
}

#[test]
fn absorbed_ends_in_black() {
    assert_eq!(
        advance(start(50), Interaction::Absorbed),
        PathState::Done { terminal: Terminal::Black }
    );
}

#[test]
fn scatter_spends_one_bounce() {
    assert_eq!(advance(start(50), Interaction::Scattered), PathState::Tracing { depth: 49 });
    assert_eq!(next_action(PathState::Tracing { depth: 49 }), PathAction::Query);
}

#[test]
fn done_state_stays() {
    let done = PathState::Done { terminal: Terminal::Sky };
    assert_eq!(advance(done, Interaction::Absorbed), done);
    assert_eq!(next_action(done), PathAction::Finish { terminal: Terminal::Sky });
}

#[test]
fn endless_scattering_stops_at_budget() {
    let events = [Interaction::Scattered; 10];
    assert_eq!(trace(3, &events), (3, PathAction::Finish { terminal: Terminal::Black }));
}

#[test]
fn scatter_then_miss_reaches_sky() {
    let events = [Interaction::Scattered, Interaction::Scattered, Interaction::Miss];
    assert_eq!(trace(5, &events), (3, PathAction::Finish { terminal: Terminal::Sky }));
    assert_eq!(trace(2, &events), (2, PathAction::Finish { terminal: Terminal::Black }));
}
