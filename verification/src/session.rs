//! What a plotting session holds: the selected model, the energy level, and
//! the curves that were fitted for them.
//!
//! The session has at most one curve of each kind. Every input that it
//! takes discards both, so a curve that it holds was always made for the
//! level and the model that it holds.

use crate::curve::{Curve, CurveColor, CurveKind, CurveView};
use crate::geometry::Sample;
use crate::level::{EnergyLevel, PlusMinusInput};
use crate::spline::{fitted_path, generate_path, DEFAULT_TENSION};
use vstd::prelude::*;

verus! {

/// The model whose states are plotted.
#[derive(Clone, Copy, Debug, PartialEq, Eq, Structural)]
pub enum PotentialModelInput {
    InfiniteWell,
    HarmonicOscillator,
}

impl Default for PotentialModelInput {
    fn default() -> (model: PotentialModelInput)
        ensures
            model == PotentialModelInput::InfiniteWell,
    {
        PotentialModelInput::InfiniteWell
    }
}

/// The news that the level was asked to go up or down.
#[derive(Clone, Copy, Debug, PartialEq, Eq, Structural)]
pub struct PlusMinusInputEvent {
    pub plus_minus: PlusMinusInput,
}

/// The news that a model was selected.
#[derive(Clone, Copy, Debug, PartialEq, Eq, Structural)]
pub struct PotentialModelInputEvent {
    pub model: PotentialModelInput,
}

/// The level that a session starts at.
pub const INITIAL_ENERGY_LEVEL: u32 = 1;

/// The state of a plotting session.
pub struct Session {
    model: PotentialModelInput,
    level: EnergyLevel,
    wave: Option<Curve>,
    pdf: Option<Curve>,
}

/// The mathematical value of a [`Session`].
pub struct SessionView {
    pub model: PotentialModelInput,
    pub level: EnergyLevel,
    pub wave: Option<CurveView>,
    pub pdf: Option<CurveView>,
}

impl SessionView {
    /// The curve of the given kind, if the session holds one.
    pub open spec fn curve(self, kind: CurveKind) -> Option<CurveView> {
        match kind {
            CurveKind::Wave => self.wave,
            CurveKind::PDF => self.pdf,
        }
    }

    /// The same session with the curve of the given kind replaced.
    pub open spec fn with_curve(self, kind: CurveKind, curve: CurveView) -> SessionView {
        match kind {
            CurveKind::Wave => SessionView { wave: Some(curve), ..self },
            CurveKind::PDF => SessionView { pdf: Some(curve), ..self },
        }
    }

    /// The session after the level was moved: both curves are gone.
    pub open spec fn after_level_input(self, input: PlusMinusInput) -> SessionView {
        SessionView { model: self.model, level: self.level.after(input), wave: None, pdf: None }
    }

    /// The session after a model was selected: both curves are gone.
    pub open spec fn after_model_input(self, model: PotentialModelInput) -> SessionView {
        SessionView { model, level: self.level, wave: None, pdf: None }
    }

    /// The session after a run of level inputs, taken one after the other.
    pub open spec fn after_level_inputs(self, inputs: Seq<PlusMinusInput>) -> SessionView
        decreases inputs.len(),
    {
        if inputs.len() == 0 {
            self
        } else {
            self.after_level_inputs(inputs.drop_last()).after_level_input(inputs.last())
        }
    }

    /// The session after a run of model selections, taken one after the other.
    pub open spec fn after_model_inputs(self, models: Seq<PotentialModelInput>) -> SessionView
        decreases models.len(),
    {
        if models.len() == 0 {
            self
        } else {
            self.after_model_inputs(models.drop_last()).after_model_input(models.last())
        }
    }

    /// Whether every curve is of the kind of its place and was made for the
    /// level of the session.
    pub open spec fn curves_are_current(self) -> bool {
        &&& self.wave matches Some(curve) ==> curve.kind == CurveKind::Wave && curve.id
            == self.level.0
        &&& self.pdf matches Some(curve) ==> curve.kind == CurveKind::PDF && curve.id
            == self.level.0
    }
}

/// The inputs that a run of level events carries.
pub open spec fn level_inputs(events: Seq<PlusMinusInputEvent>) -> Seq<PlusMinusInput> {
    Seq::new(events.len(), |i: int| events[i].plus_minus)
}

/// The models that a run of selection events carries.
pub open spec fn model_inputs(events: Seq<PotentialModelInputEvent>) -> Seq<PotentialModelInput> {
    Seq::new(events.len(), |i: int| events[i].model)
}

/// The value of a place that may hold a curve.
pub open spec fn slot_view(slot: Option<Curve>) -> Option<CurveView> {
    match slot {
        Some(curve) => Some(curve@),
        None => None,
    }
}

impl View for Session {
    type V = SessionView;

    closed spec fn view(&self) -> SessionView {
        SessionView {
            model: self.model,
            level: self.level,
            wave: slot_view(self.wave),
            pdf: slot_view(self.pdf),
        }
    }
}

impl Session {
    #[verifier::type_invariant]
    spec fn well_formed(&self) -> bool {
        self@.curves_are_current()
    }

    /// A session on the infinite well at the initial level, with no curve.
    pub fn new() -> (session: Session)
        ensures
            session@ == (SessionView {
                model: PotentialModelInput::InfiniteWell,
                level: EnergyLevel(INITIAL_ENERGY_LEVEL),
                wave: None,
                pdf: None,
            }),
    {
        Session {
            model: PotentialModelInput::InfiniteWell,
            level: EnergyLevel(INITIAL_ENERGY_LEVEL),
            wave: None,
            pdf: None,
        }
    }

    /// A session on the given model and level, with no curve.
    pub fn starting_at(model: PotentialModelInput, level: EnergyLevel) -> (session: Session)
        ensures
            session@ == (SessionView { model, level, wave: None, pdf: None }),
    {
        Session { model, level, wave: None, pdf: None }
    }

    /// The selected model.
    pub fn model(&self) -> (model: PotentialModelInput)
        ensures
            model == self@.model,
    {
        self.model
    }

    /// The energy level.
    pub fn level(&self) -> (level: EnergyLevel)
        ensures
            level == self@.level,
    {
        self.level
    }

    /// The curve of the given kind, if there is one. It is of that kind and
    /// was made for the level that the session is at.
    pub fn curve(&self, kind: CurveKind) -> (curve: Option<&Curve>)
        ensures
            self@.curves_are_current(),
            match curve {
                Some(found) => self@.curve(kind) == Some(found@) && found.kind == kind && found.id
                    == self@.level.0,
                None => self@.curve(kind) is None,
            },
    {
        proof {
            use_type_invariant(self);
        }
        match kind {
            CurveKind::Wave => self.wave.as_ref(),
            CurveKind::PDF => self.pdf.as_ref(),
        }
    }

    /// Whether the given model is the selected one.
    pub fn is_model_selected(&self, model: PotentialModelInput) -> (selected: bool)
        ensures
            selected == (self@.model == model),
    {
        self.model == model
    }

    /// Raises the level by one, up to the highest that can be plotted, and
    /// discards both curves.
    pub fn increment_level(&mut self)
        ensures
            final(self)@ == old(self)@.after_level_input(PlusMinusInput::Plus),
    {
        *self = Session { model: self.model, level: self.level.increment(), wave: None, pdf: None };
    }

    /// Lowers the level by one, down to zero, and discards both curves.
    pub fn decrement_level(&mut self)
        ensures
            final(self)@ == old(self)@.after_level_input(PlusMinusInput::Minus),
    {
        *self = Session { model: self.model, level: self.level.decrement(), wave: None, pdf: None };
    }

    /// Selects a model and discards both curves, also where that model was
    /// selected already.
    pub fn select_model(&mut self, model: PotentialModelInput)
        ensures
            final(self)@ == old(self)@.after_model_input(model),
    {
        *self = Session { model, level: self.level, wave: None, pdf: None };
    }
}

/// Takes the level events that have arrived, in order: each moves the level
/// by one within the range that can be plotted, and discards both curves.
pub fn listen_energy_level_ui_inputs(events: &[PlusMinusInputEvent], session: &mut Session)
    ensures
        final(session)@ == old(session)@.after_level_inputs(level_inputs(events@)),
        final(session)@.level == old(session)@.level.after_all(level_inputs(events@)),
        old(session)@.level.in_range() ==> final(session)@.level.in_range(),
{
    let ghost inputs = level_inputs(events@);
    let mut i: usize = 0;
    while i < events.len()
        invariant
            i <= events@.len(),
            inputs == level_inputs(events@),
            session@ == old(session)@.after_level_inputs(inputs.take(i as int)),
            session@.level == old(session)@.level.after_all(inputs.take(i as int)),
            old(session)@.level.in_range() ==> session@.level.in_range(),
        decreases events@.len() - i,
    {
        proof {
            assert(inputs.take(i + 1).drop_last() =~= inputs.take(i as int));
            assert(inputs.take(i + 1).last() == events@[i as int].plus_minus);
        }
        match events[i].plus_minus {
            PlusMinusInput::Plus => session.increment_level(),
            PlusMinusInput::Minus => session.decrement_level(),
        }
        i += 1;
    }
    proof {
        assert(inputs.take(events@.len() as int) =~= inputs);
    }
}

/// Takes the model selections that have arrived, in order: the last one
/// stands, and both curves are discarded if there was any.
pub fn listen_potential_model_ui_inputs(
    events: &[PotentialModelInputEvent],
    session: &mut Session,
)
    ensures
        final(session)@ == old(session)@.after_model_inputs(model_inputs(events@)),
        final(session)@.level == old(session)@.level,
        events@.len() == 0 ==> final(session)@ == old(session)@,
        events@.len() > 0 ==> final(session)@.model == events@.last().model,
{
    let ghost models = model_inputs(events@);
    let mut i: usize = 0;
    while i < events.len()
        invariant
            i <= events@.len(),
            models == model_inputs(events@),
            session@ == old(session)@.after_model_inputs(models.take(i as int)),
            session@.level == old(session)@.level,
            i > 0 ==> session@.model == events@[i - 1].model,
        decreases events@.len() - i,
    {
        proof {
            assert(models.take(i + 1).drop_last() =~= models.take(i as int));
            assert(models.take(i + 1).last() == events@[i as int].model);
        }
        session.select_model(events[i].model);
        i += 1;
    }
    proof {
        assert(models.take(events@.len() as int) =~= models);
    }
}

/// Fits a curve through `points` with the default tension on both sides and
/// puts it in the place of its kind, instead of what was there. The curve
/// is marked with the level that the session is at.
pub fn setup_curve(session: &mut Session, kind: CurveKind, color: CurveColor, points: Vec<Sample>)
    ensures
        final(session)@ == old(session)@.with_curve(
            kind,
            CurveView {
                id: old(session)@.level.0,
                kind,
                color,
                segments: fitted_path(points@, DEFAULT_TENSION as int, DEFAULT_TENSION as int),
            },
        ),
        final(session)@.curves_are_current(),
{
    proof {
        use_type_invariant(&*session);
    }
    let bezier_points = generate_path(points.as_slice(), DEFAULT_TENSION, DEFAULT_TENSION);
    let curve = Curve { id: session.level.0, kind, color, points: bezier_points };
    match kind {
        CurveKind::Wave => {
            session.wave = Some(curve);
        },
        CurveKind::PDF => {
            session.pdf = Some(curve);
        },
    }
}

} // verus!
