//! The result codec: converts the engine's ordered output — a sequence of
//! advances, each bundling zero-or-more regular encounters and an optional
//! rare encounter — into host-native records, in order and without loss.
//! The one representational change is deliberate: the engine emits an 8-bit
//! ability id, the canonical host record carries it at 16 bits, widened by
//! zero-extension.

use vstd::prelude::*;

verus! {

/// One simulated encounter as the engine emits it (narrow 8-bit ability id).
#[derive(Clone, Copy, PartialEq, Debug)]
pub struct EnginePokemon {
    pub species: u16,
    pub ec: u32,
    pub pid: u32,
    pub shiny: bool,
    pub ivs: [u8; 6],
    pub ability: u8,
    pub gender: u8,
    pub nature: u8,
    pub item: u16,
    pub egg_move: Option<u16>,
}

/// One simulated step as the engine emits it: the ordinal is always present
/// in this engine revision's output.
#[derive(Clone, PartialEq, Debug)]
pub struct EngineAdvance {
    pub advance: u32,
    pub regular_pokemon: Vec<EnginePokemon>,
    pub rare_pokemon: Option<EnginePokemon>,
}

/// A host-native encounter record (canonical 16-bit ability id).
#[derive(Clone, Copy, PartialEq, Debug)]
pub struct Pokemon {
    pub species: u16,
    pub ec: u32,
    pub pid: u32,
    pub shiny: bool,
    pub ivs: [u8; 6],
    pub ability: u16,
    pub gender: u8,
    pub nature: u8,
    pub item: u16,
    pub egg_move: Option<u16>,
}

/// A host-native advance record. The ordinal is optional in the canonical
/// schema: it is populated whenever the engine supplies one.
#[derive(Clone, PartialEq, Debug)]
pub struct Advance {
    pub advance: Option<u32>,
    pub regular_pokemon: Vec<Pokemon>,
    pub rare_pokemon: Option<Pokemon>,
}

/// Mathematical model of an engine encounter.
pub ghost struct EnginePokemonModel {
    pub species: u16,
    pub ec: u32,
    pub pid: u32,
    pub shiny: bool,
    pub ivs: Seq<u8>,
    pub ability: u8,
    pub gender: u8,
    pub nature: u8,
    pub item: u16,
    pub egg_move: Option<u16>,
}

/// Mathematical model of an engine advance.
pub ghost struct EngineAdvanceModel {
    pub advance: u32,
    pub regular_pokemon: Seq<EnginePokemonModel>,
    pub rare_pokemon: Option<EnginePokemonModel>,
}

/// Mathematical model of a host encounter record.
pub ghost struct PokemonModel {
    pub species: u16,
    pub ec: u32,
    pub pid: u32,
    pub shiny: bool,
    pub ivs: Seq<u8>,
    pub ability: u16,
    pub gender: u8,
    pub nature: u8,
    pub item: u16,
    pub egg_move: Option<u16>,
}

/// Mathematical model of a host advance record.
pub ghost struct AdvanceModel {
    pub advance: Option<u32>,
    pub regular_pokemon: Seq<PokemonModel>,
    pub rare_pokemon: Option<PokemonModel>,
}

impl View for EnginePokemon {
    type V = EnginePokemonModel;

    open spec fn view(&self) -> EnginePokemonModel {
        EnginePokemonModel {
            species: self.species,
            ec: self.ec,
            pid: self.pid,
            shiny: self.shiny,
            ivs: self.ivs@,
            ability: self.ability,
            gender: self.gender,
            nature: self.nature,
            item: self.item,
            egg_move: self.egg_move,
        }
    }
}

impl DeepView for EnginePokemon {
    type V = EnginePokemonModel;

    open spec fn deep_view(&self) -> EnginePokemonModel {
        self.view()
    }
}

impl View for Pokemon {
    type V = PokemonModel;

    open spec fn view(&self) -> PokemonModel {
        PokemonModel {
            species: self.species,
            ec: self.ec,
            pid: self.pid,
            shiny: self.shiny,
            ivs: self.ivs@,
            ability: self.ability,
            gender: self.gender,
            nature: self.nature,
            item: self.item,
            egg_move: self.egg_move,
        }
    }
}

impl DeepView for Pokemon {
    type V = PokemonModel;

    open spec fn deep_view(&self) -> PokemonModel {
        self.view()
    }
}

impl View for EngineAdvance {
    type V = EngineAdvanceModel;

    open spec fn view(&self) -> EngineAdvanceModel {
        EngineAdvanceModel {
            advance: self.advance,
            regular_pokemon: self.regular_pokemon.deep_view(),
            rare_pokemon: self.rare_pokemon.deep_view(),
        }
    }
}

impl DeepView for EngineAdvance {
    type V = EngineAdvanceModel;

    open spec fn deep_view(&self) -> EngineAdvanceModel {
        self.view()
    }
}

impl View for Advance {
    type V = AdvanceModel;

    open spec fn view(&self) -> AdvanceModel {
        AdvanceModel {
            advance: self.advance,
            regular_pokemon: self.regular_pokemon.deep_view(),
            rare_pokemon: self.rare_pokemon.deep_view(),
        }
    }
}

impl DeepView for Advance {
    type V = AdvanceModel;

    open spec fn deep_view(&self) -> AdvanceModel {
        self.view()
    }
}

/// Widening an engine encounter into the host record: the ability id is
/// zero-extended from 8 to 16 bits, every other field carries over unchanged.
pub open spec fn widen_pokemon(p: EnginePokemonModel) -> PokemonModel {
    PokemonModel {
        species: p.species,
        ec: p.ec,
        pid: p.pid,
        shiny: p.shiny,
        ivs: p.ivs,
        ability: p.ability as u16,
        gender: p.gender,
        nature: p.nature,
        item: p.item,
        egg_move: p.egg_move,
    }
}

/// What converting one engine advance yields: the ordinal the engine
/// supplied, each regular encounter widened in emission order, and the rare
/// encounter widened when present.
pub open spec fn host_advance(a: EngineAdvanceModel) -> AdvanceModel {
    AdvanceModel {
        advance: Some(a.advance),
        regular_pokemon: a.regular_pokemon.map_values(|p: EnginePokemonModel| widen_pokemon(p)),
        rare_pokemon: match a.rare_pokemon {
            Some(p) => Some(widen_pokemon(p)),
            None => None,
        },
    }
}

/// What converting a whole engine response yields: each advance converted
/// independently, in order.
pub open spec fn host_results(s: Seq<EngineAdvanceModel>) -> Seq<AdvanceModel> {
    s.map_values(|a: EngineAdvanceModel| host_advance(a))
}

/// Law: ability widening is numerically lossless. For every 8-bit ability
/// id the widened 16-bit value equals the original, with no bits dropped
/// and none reinterpreted as a sign.
pub proof fn lemma_ability_widening(p: EnginePokemonModel)
    ensures
        widen_pokemon(p).ability as int == p.ability as int,
        0 <= widen_pokemon(p).ability as int <= 255,
{
}

/// Converts one engine encounter into the host record.
pub fn to_host_pokemon(p: &EnginePokemon) -> (r: Pokemon)
    ensures
        r@ == widen_pokemon(p@),
{
    Pokemon {
        species: p.species,
        ec: p.ec,
        pid: p.pid,
        shiny: p.shiny,
        ivs: p.ivs,
        ability: p.ability as u16,
        gender: p.gender,
        nature: p.nature,
        item: p.item,
        egg_move: p.egg_move,
    }
}

/// Converts one engine advance into the host record, keeping the engine's
/// emission order among the regular encounters.
pub fn to_host_advance(a: &EngineAdvance) -> (r: Advance)
    ensures
        r@ == host_advance(a@),
{
    let mut regular: Vec<Pokemon> = Vec::new();
    let mut i: usize = 0;
    while i < a.regular_pokemon.len()
        invariant
            i <= a.regular_pokemon.len(),
            regular@.len() == i,
            forall|j: int|
                0 <= j < i ==> (#[trigger] regular@[j])@ == widen_pokemon(a.regular_pokemon@[j]@),
        decreases a.regular_pokemon.len() - i,
    {
        let p = to_host_pokemon(&a.regular_pokemon[i]);
        regular.push(p);
        i = i + 1;
    }
    let rare = match &a.rare_pokemon {
        Some(p) => Some(to_host_pokemon(p)),
        None => None,
    };
    proof {
        assert(regular.deep_view() =~= a@.regular_pokemon.map_values(
            |p: EnginePokemonModel| widen_pokemon(p),
        ));
    }
    Advance { advance: Some(a.advance), regular_pokemon: regular, rare_pokemon: rare }
}

/// Converts the engine's whole ordered response into host records: each
/// advance independently, in order.
pub fn to_host(results: &Vec<EngineAdvance>) -> (r: Vec<Advance>)
    ensures
        r.deep_view() == host_results(results.deep_view()),
{
    let mut out: Vec<Advance> = Vec::new();
    let mut i: usize = 0;
    while i < results.len()
        invariant
            i <= results.len(),
            out@.len() == i,
            forall|j: int|
                0 <= j < i ==> (#[trigger] out@[j])@ == host_advance(results@[j]@),
        decreases results.len() - i,
    {
        let a = to_host_advance(&results[i]);
        out.push(a);
        i = i + 1;
    }
    proof {
        assert(out.deep_view() =~= host_results(results.deep_view()));
    }
    out
}

/// Law: order preservation. Converting an engine response neither drops,
/// adds, nor reorders anything: the output has one record per engine
/// advance, at the same position, and within each record the regular
/// encounters stand in the engine's emission order, element for element.
pub proof fn lemma_order_preserved(s: Seq<EngineAdvanceModel>)
    ensures
        host_results(s).len() == s.len(),
        forall|i: int| 0 <= i < s.len() ==> #[trigger] host_results(s)[i] == host_advance(s[i]),
        forall|i: int|
            0 <= i < s.len() ==> #[trigger] host_results(s)[i].regular_pokemon.len()
                == s[i].regular_pokemon.len(),
        forall|i: int, j: int|
            0 <= i < s.len() && 0 <= j < s[i].regular_pokemon.len()
                ==> #[trigger] host_results(s)[i].regular_pokemon[j] == widen_pokemon(
                s[i].regular_pokemon[j],
            ),
{
}

} // verus!
