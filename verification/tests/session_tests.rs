use quantum_plot::curve::{CurveColor, CurveKind};
use quantum_plot::geometry::Sample;
use quantum_plot::level::{EnergyLevel, PlusMinusInput, MAX_ENERGY_LEVEL};
use quantum_plot::session::{
    listen_energy_level_ui_inputs, listen_potential_model_ui_inputs, setup_curve,
    PlusMinusInputEvent, PotentialModelInput, PotentialModelInputEvent, Session,
    INITIAL_ENERGY_LEVEL,
};
use quantum_plot::spline::generate_path;

fn plus() -> PlusMinusInputEvent {
    PlusMinusInputEvent { plus_minus: PlusMinusInput::Plus }
}

fn minus() -> PlusMinusInputEvent {
    PlusMinusInputEvent { plus_minus: PlusMinusInput::Minus }
}

fn select(model: PotentialModelInput) -> PotentialModelInputEvent {
    PotentialModelInputEvent { model }
}

fn line() -> Vec<Sample> {
    vec![Sample { x: 0, y: 0 }, Sample { x: 3, y: 30 }, Sample { x: 6, y: 0 }]
}

#[test]
fn level_goes_up_by_one_and_stops_at_ten() {
    assert_eq!(10, MAX_ENERGY_LEVEL);
    assert_eq!(EnergyLevel(1), EnergyLevel(0).increment());
    assert_eq!(EnergyLevel(10), EnergyLevel(9).increment());
    assert_eq!(EnergyLevel(10), EnergyLevel(10).increment());
    assert_eq!(EnergyLevel(10), EnergyLevel(u32::MAX).increment());
}

#[test]
fn level_goes_down_by_one_and_stops_at_zero() {
    assert_eq!(EnergyLevel(0), EnergyLevel(0).decrement());
    assert_eq!(EnergyLevel(0), EnergyLevel(1).decrement());
    assert_eq!(EnergyLevel(9), EnergyLevel(10).decrement());
}

#[test]
fn level_follows_the_input() {
    assert_eq!(EnergyLevel(4), EnergyLevel(3).apply(PlusMinusInput::Plus));
    assert_eq!(EnergyLevel(2), EnergyLevel(3).apply(PlusMinusInput::Minus));
}

#[test]
fn defaults_are_plus_and_the_infinite_well() {
    assert_eq!(PlusMinusInput::Plus, PlusMinusInput::default());
    assert_eq!(PotentialModelInput::InfiniteWell, PotentialModelInput::default());
}

#[test]
fn new_session_is_the_infinite_well_at_level_one_without_curves() {
    let session = Session::new();
    assert_eq!(1, INITIAL_ENERGY_LEVEL);
    assert_eq!(PotentialModelInput::InfiniteWell, session.model());
    assert_eq!(EnergyLevel(1), session.level());
    assert!(session.curve(CurveKind::Wave).is_none());
    assert!(session.curve(CurveKind::PDF).is_none());
    assert!(session.is_model_selected(PotentialModelInput::InfiniteWell));
    assert!(!session.is_model_selected(PotentialModelInput::HarmonicOscillator));
}

#[test]
fn level_stays_in_range_whatever_the_inputs() {
    for start in 0..=10u32 {
        for pattern in 0..(1u32 << 12) {
            let events: Vec<PlusMinusInputEvent> = (0..12)
                .map(|bit| if pattern >> bit & 1 == 1 { plus() } else { minus() })
                .collect();
            let mut session =
                Session::starting_at(PotentialModelInput::HarmonicOscillator, EnergyLevel(start));
            listen_energy_level_ui_inputs(&events, &mut session);
            assert!(session.level().0 <= 10);
        }
    }
}

#[test]
fn level_events_are_taken_in_order() {
    let mut session = Session::starting_at(PotentialModelInput::InfiniteWell, EnergyLevel(9));
    listen_energy_level_ui_inputs(&[plus(), plus(), plus(), minus()], &mut session);
    assert_eq!(EnergyLevel(9), session.level());
    listen_energy_level_ui_inputs(&[minus(), plus(), plus(), plus()], &mut session);
    assert_eq!(EnergyLevel(10), session.level());
    assert_eq!(PotentialModelInput::InfiniteWell, session.model());
}

#[test]
fn no_events_change_nothing() {
    let mut session = Session::new();
    setup_curve(&mut session, CurveKind::Wave, CurveColor::White, line());
    listen_energy_level_ui_inputs(&[], &mut session);
    listen_potential_model_ui_inputs(&[], &mut session);
    assert_eq!(EnergyLevel(1), session.level());
    assert_eq!(PotentialModelInput::InfiniteWell, session.model());
    assert!(session.curve(CurveKind::Wave).is_some());
}

#[test]
fn last_selected_model_stands() {
    let mut session = Session::new();
    listen_potential_model_ui_inputs(
        &[
            select(PotentialModelInput::HarmonicOscillator),
            select(PotentialModelInput::InfiniteWell),
            select(PotentialModelInput::HarmonicOscillator),
        ],
        &mut session,
    );
    assert_eq!(PotentialModelInput::HarmonicOscillator, session.model());
    assert_eq!(EnergyLevel(1), session.level());
}

#[test]
fn curve_is_fitted_with_the_default_tension_and_marked_with_the_level() {
    let mut session = Session::starting_at(PotentialModelInput::HarmonicOscillator, EnergyLevel(7));
    setup_curve(&mut session, CurveKind::PDF, CurveColor::Gray, line());
    let curve = session.curve(CurveKind::PDF).unwrap();
    assert_eq!(7, curve.id);
    assert_eq!(CurveKind::PDF, curve.kind);
    assert_eq!(CurveColor::Gray, curve.color);
    assert_eq!(generate_path(&line(), 300, 300), curve.points);
    assert!(session.curve(CurveKind::Wave).is_none());
}

#[test]
fn new_curve_replaces_the_one_of_its_kind_only() {
    let mut session = Session::new();
    setup_curve(&mut session, CurveKind::Wave, CurveColor::White, line());
    setup_curve(&mut session, CurveKind::PDF, CurveColor::Gray, line());
    let longer = vec![
        Sample { x: 0, y: 0 },
        Sample { x: 1, y: 1 },
        Sample { x: 2, y: 4 },
        Sample { x: 3, y: 9 },
    ];
    setup_curve(&mut session, CurveKind::Wave, CurveColor::Gray, longer.clone());
    let wave = session.curve(CurveKind::Wave).unwrap();
    assert_eq!(CurveColor::Gray, wave.color);
    assert_eq!(generate_path(&longer, 300, 300), wave.points);
    let pdf = session.curve(CurveKind::PDF).unwrap();
    assert_eq!(generate_path(&line(), 300, 300), pdf.points);
}

#[test]
fn every_input_discards_both_curves() {
    let mut session = Session::starting_at(PotentialModelInput::InfiniteWell, EnergyLevel(10));
    setup_curve(&mut session, CurveKind::Wave, CurveColor::White, line());
    setup_curve(&mut session, CurveKind::PDF, CurveColor::Gray, line());
    session.increment_level();
    assert_eq!(EnergyLevel(10), session.level());
    assert!(session.curve(CurveKind::Wave).is_none());
    assert!(session.curve(CurveKind::PDF).is_none());

    setup_curve(&mut session, CurveKind::Wave, CurveColor::White, line());
    session.select_model(PotentialModelInput::InfiniteWell);
    assert!(session.curve(CurveKind::Wave).is_none());

    setup_curve(&mut session, CurveKind::PDF, CurveColor::Gray, line());
    session.decrement_level();
    assert_eq!(EnergyLevel(9), session.level());
    assert!(session.curve(CurveKind::PDF).is_none());
}

#[test]
fn curve_with_too_few_points_is_empty() {
    let mut session = Session::new();
    setup_curve(&mut session, CurveKind::Wave, CurveColor::White, vec![Sample { x: 1, y: 1 }]);
    assert!(session.curve(CurveKind::Wave).unwrap().points.is_empty());
}
