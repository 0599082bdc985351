//! The energy level of the plotted state and the two inputs that move it.

use vstd::prelude::*;

verus! {

/// The highest energy level that can be plotted.
pub const MAX_ENERGY_LEVEL: u32 = 10;

/// The index `n` of a quantum state. Levels up to [`MAX_ENERGY_LEVEL`] can
/// be plotted; the inputs of this module never lead out of that range.
#[derive(Clone, Copy, Debug, PartialEq, Eq, Structural)]
pub struct EnergyLevel(pub u32);

/// A press of the button that raises the level, or of the one that lowers it.
#[derive(Clone, Copy, Debug, PartialEq, Eq, Structural)]
pub enum PlusMinusInput {
    Plus,
    Minus,
}

impl Default for PlusMinusInput {
    fn default() -> (input: PlusMinusInput)
        ensures
            input == PlusMinusInput::Plus,
    {
        PlusMinusInput::Plus
    }
}

impl EnergyLevel {
    /// Whether the level can be plotted.
    pub open spec fn in_range(self) -> bool {
        self.0 <= MAX_ENERGY_LEVEL
    }

    /// One level up, but never beyond [`MAX_ENERGY_LEVEL`].
    pub open spec fn incremented(self) -> EnergyLevel {
        EnergyLevel(vstd::math::min(MAX_ENERGY_LEVEL as int, self.0 + 1) as u32)
    }

    /// One level down, but never below zero.
    pub open spec fn decremented(self) -> EnergyLevel {
        EnergyLevel(vstd::math::max(0, self.0 - 1) as u32)
    }

    /// The level that `input` leads to.
    pub open spec fn after(self, input: PlusMinusInput) -> EnergyLevel {
        match input {
            PlusMinusInput::Plus => self.incremented(),
            PlusMinusInput::Minus => self.decremented(),
        }
    }

    /// The level that `inputs` lead to, taken one after the other.
    pub open spec fn after_all(self, inputs: Seq<PlusMinusInput>) -> EnergyLevel
        decreases inputs.len(),
    {
        if inputs.len() == 0 {
            self
        } else {
            self.after_all(inputs.drop_last()).after(inputs.last())
        }
    }

    /// Raises the level by one, stopping at [`MAX_ENERGY_LEVEL`].
    pub fn increment(self) -> (next: EnergyLevel)
        ensures
            next == self.incremented(),
            self.in_range() ==> next.in_range(),
    {
        if self.0 >= MAX_ENERGY_LEVEL {
            EnergyLevel(MAX_ENERGY_LEVEL)
        } else {
            EnergyLevel(self.0 + 1)
        }
    }

    /// Lowers the level by one, stopping at zero.
    pub fn decrement(self) -> (next: EnergyLevel)
        ensures
            next == self.decremented(),
            self.in_range() ==> next.in_range(),
    {
        if self.0 == 0 {
            EnergyLevel(0)
        } else {
            EnergyLevel(self.0 - 1)
        }
    }

    /// Moves the level as `input` asks.
    pub fn apply(self, input: PlusMinusInput) -> (next: EnergyLevel)
        ensures
            next == self.after(input),
            self.in_range() ==> next.in_range(),
    {
        match input {
            PlusMinusInput::Plus => self.increment(),
            PlusMinusInput::Minus => self.decrement(),
        }
    }
}

/// A level that can be plotted stays one that can be plotted, whatever
/// inputs arrive and in whatever order.
pub proof fn lemma_level_stays_in_range(level: EnergyLevel, inputs: Seq<PlusMinusInput>)
    requires
        level.in_range(),
    ensures
        level.after_all(inputs).in_range(),
    decreases inputs.len(),
{
    if inputs.len() > 0 {
        lemma_level_stays_in_range(level, inputs.drop_last());
    }
}

} // verus!
