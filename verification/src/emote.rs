//! The pet's emotional states, the five supply kinds, and the total mapping
//! from a supply kind to the reaction it triggers.

use vstd::prelude::*;

verus! {

/// The pet's current discrete emotional state; it selects which animation
/// plays. The declaration order gives the stable total order used for
/// deterministic comparison.
#[derive(Copy, Clone, PartialEq, Eq, Structural, PartialOrd, Ord, Hash, Debug)]
pub enum Emote {
    Idle,
    Purring,
    Eating,
    Drinking,
    Peeing,
    Smelling,
    Playing,
}

impl Default for Emote {
    /// A pet starts out idle.
    fn default() -> (r: Self)
        ensures
            r == Emote::Idle,
    {
        Emote::Idle
    }
}

/// One of the five fixed inventory item kinds the pet reacts to.
#[derive(Copy, Clone, PartialEq, Eq, Structural, PartialOrd, Ord, Hash, Debug)]
pub enum Supply {
    Food,
    Milk,
    LitterScoop,
    Litter,
    Toy,
}

/// The reaction each supply kind triggers. The match is exhaustive over the
/// closed enum and has no default arm: a new kind without an entry would not
/// compile.
pub open spec fn spec_emote_for(kind: Supply) -> Emote {
    match kind {
        Supply::Toy => Emote::Playing,
        Supply::LitterScoop => Emote::Smelling,
        Supply::Litter => Emote::Peeing,
        Supply::Milk => Emote::Drinking,
        Supply::Food => Emote::Eating,
    }
}

/// Total mapping from supply kind to the emote it triggers.
pub fn emote_for(kind: Supply) -> (r: Emote)
    ensures
        r == spec_emote_for(kind),
{
    match kind {
        Supply::Toy => Emote::Playing,
        Supply::LitterScoop => Emote::Smelling,
        Supply::Litter => Emote::Peeing,
        Supply::Milk => Emote::Drinking,
        Supply::Food => Emote::Eating,
    }
}

/// The supply-to-emote mapping pins every kind to its single specified emote,
/// and no two kinds share a reaction.
pub proof fn lemma_emote_for_total()
    ensures
        spec_emote_for(Supply::Toy) == Emote::Playing,
        spec_emote_for(Supply::LitterScoop) == Emote::Smelling,
        spec_emote_for(Supply::Litter) == Emote::Peeing,
        spec_emote_for(Supply::Milk) == Emote::Drinking,
        spec_emote_for(Supply::Food) == Emote::Eating,
        forall|a: Supply, b: Supply|
            a != b ==> #[trigger] spec_emote_for(a) != #[trigger] spec_emote_for(b),
{
}

impl Emote {
    /// Short human-readable name of the state.
    pub fn label(&self) -> (r: &'static str)
        ensures
            *self == Emote::Idle ==> r@ == "idle"@,
            *self == Emote::Purring ==> r@ == "purring"@,
            *self == Emote::Eating ==> r@ == "eating"@,
            *self == Emote::Drinking ==> r@ == "drinking"@,
            *self == Emote::Peeing ==> r@ == "peeing"@,
            *self == Emote::Smelling ==> r@ == "smelling"@,
            *self == Emote::Playing ==> r@ == "playing"@,
    {
        match self {
            Emote::Idle => "idle",
            Emote::Purring => "purring",
            Emote::Eating => "eating",
            Emote::Drinking => "drinking",
            Emote::Peeing => "peeing",
            Emote::Smelling => "smelling",
            Emote::Playing => "playing",
        }
    }
}

impl Supply {
    /// Short human-readable name of the supply kind.
    pub fn label(&self) -> (r: &'static str)
        ensures
            *self == Supply::Food ==> r@ == "food"@,
            *self == Supply::Milk ==> r@ == "milk"@,
            *self == Supply::Toy ==> r@ == "toy"@,
            *self == Supply::LitterScoop ==> r@ == "litter scoop"@,
            *self == Supply::Litter ==> r@ == "litter"@,
    {
        match self {
            Supply::Food => "food",
            Supply::Milk => "milk",
            Supply::Toy => "toy",
            Supply::LitterScoop => "litter scoop",
            Supply::Litter => "litter",
        }
    }
}

} // verus!
