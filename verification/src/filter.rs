//! The filter codec: lossless, field-preserving conversion between the
//! host-side filter description and the engine's filter shape. No semantic
//! validation happens here; absence of an optional field must stay absence.

use vstd::prelude::*;

verus! {

/// A host-side filter description. An absent optional field imposes no
/// constraint. The two IV-bound arrays are always present: an unconstrained
/// stat carries the full open range `0..=31` at its position.
#[derive(Clone, PartialEq, Debug)]
pub struct Filter {
    pub shiny: bool,
    pub species: Option<u16>,
    pub min_ivs: [u8; 6],
    pub max_ivs: [u8; 6],
    pub ability: Option<u8>,
    pub nature: Option<Vec<u8>>,
    pub item: Option<u16>,
    pub egg_move: Option<u16>,
    pub gender: Option<u8>,
}

/// The engine's filter shape: the same information, field for field, in the
/// layout the engine consumes.
#[derive(Clone, PartialEq, Debug)]
pub struct EngineFilter {
    pub shiny: bool,
    pub species: Option<u16>,
    pub min_ivs: [u8; 6],
    pub max_ivs: [u8; 6],
    pub ability: Option<u8>,
    pub nature: Option<Vec<u8>>,
    pub item: Option<u16>,
    pub egg_move: Option<u16>,
    pub gender: Option<u8>,
}

/// Mathematical model of a host filter.
pub ghost struct FilterModel {
    pub shiny: bool,
    pub species: Option<u16>,
    pub min_ivs: Seq<u8>,
    pub max_ivs: Seq<u8>,
    pub ability: Option<u8>,
    pub nature: Option<Seq<u8>>,
    pub item: Option<u16>,
    pub egg_move: Option<u16>,
    pub gender: Option<u8>,
}

/// Mathematical model of an engine filter.
pub ghost struct EngineFilterModel {
    pub shiny: bool,
    pub species: Option<u16>,
    pub min_ivs: Seq<u8>,
    pub max_ivs: Seq<u8>,
    pub ability: Option<u8>,
    pub nature: Option<Seq<u8>>,
    pub item: Option<u16>,
    pub egg_move: Option<u16>,
    pub gender: Option<u8>,
}

impl View for Filter {
    type V = FilterModel;

    open spec fn view(&self) -> FilterModel {
        FilterModel {
            shiny: self.shiny,
            species: self.species,
            min_ivs: self.min_ivs@,
            max_ivs: self.max_ivs@,
            ability: self.ability,
            nature: self.nature.deep_view(),
            item: self.item,
            egg_move: self.egg_move,
            gender: self.gender,
        }
    }
}

impl View for EngineFilter {
    type V = EngineFilterModel;

    open spec fn view(&self) -> EngineFilterModel {
        EngineFilterModel {
            shiny: self.shiny,
            species: self.species,
            min_ivs: self.min_ivs@,
            max_ivs: self.max_ivs@,
            ability: self.ability,
            nature: self.nature.deep_view(),
            item: self.item,
            egg_move: self.egg_move,
            gender: self.gender,
        }
    }
}

/// What encoding does to a filter: every field carries over unchanged.
pub open spec fn encode_filter(m: FilterModel) -> EngineFilterModel {
    EngineFilterModel {
        shiny: m.shiny,
        species: m.species,
        min_ivs: m.min_ivs,
        max_ivs: m.max_ivs,
        ability: m.ability,
        nature: m.nature,
        item: m.item,
        egg_move: m.egg_move,
        gender: m.gender,
    }
}

/// What decoding does to an engine filter: every field carries over unchanged.
pub open spec fn decode_filter(m: EngineFilterModel) -> FilterModel {
    FilterModel {
        shiny: m.shiny,
        species: m.species,
        min_ivs: m.min_ivs,
        max_ivs: m.max_ivs,
        ability: m.ability,
        nature: m.nature,
        item: m.item,
        egg_move: m.egg_move,
        gender: m.gender,
    }
}

impl Filter {
    /// Builds a filter from its parts; every field is kept exactly as given,
    /// with no validation and no defaulting of absent fields.
    pub fn new(
        shiny: bool,
        species: Option<u16>,
        min_ivs: [u8; 6],
        max_ivs: [u8; 6],
        ability: Option<u8>,
        nature: Option<Vec<u8>>,
        item: Option<u16>,
        egg_move: Option<u16>,
        gender: Option<u8>,
    ) -> (r: Filter)
        ensures
            r@ == (FilterModel {
                shiny: shiny,
                species: species,
                min_ivs: min_ivs@,
                max_ivs: max_ivs@,
                ability: ability,
                nature: nature.deep_view(),
                item: item,
                egg_move: egg_move,
                gender: gender,
            }),
    {
        Filter {
            shiny: shiny,
            species: species,
            min_ivs: min_ivs,
            max_ivs: max_ivs,
            ability: ability,
            nature: nature,
            item: item,
            egg_move: egg_move,
            gender: gender,
        }
    }
}

/// Converts a host filter into the engine's shape. Lossless: every present
/// field keeps its value, every absent field stays absent.
pub fn to_engine(f: Filter) -> (r: EngineFilter)
    ensures
        r@ == encode_filter(f@),
{
    EngineFilter {
        shiny: f.shiny,
        species: f.species,
        min_ivs: f.min_ivs,
        max_ivs: f.max_ivs,
        ability: f.ability,
        nature: f.nature,
        item: f.item,
        egg_move: f.egg_move,
        gender: f.gender,
    }
}

/// Converts an engine filter back into the host shape. Lossless: every
/// present field keeps its value, every absent field stays absent.
pub fn from_engine(e: EngineFilter) -> (r: Filter)
    ensures
        r@ == decode_filter(e@),
{
    Filter {
        shiny: e.shiny,
        species: e.species,
        min_ivs: e.min_ivs,
        max_ivs: e.max_ivs,
        ability: e.ability,
        nature: e.nature,
        item: e.item,
        egg_move: e.egg_move,
        gender: e.gender,
    }
}

/// The data model's one filter invariant: wherever both bound arrays
/// constrain a stat, the lower bound does not exceed the upper. The codec
/// never checks this — domain validation is the engine's concern — but,
/// changing no field, it preserves it exactly.
pub open spec fn iv_bounds_consistent(min_ivs: Seq<u8>, max_ivs: Seq<u8>) -> bool {
    forall|i: int| 0 <= i < min_ivs.len() && i < max_ivs.len() ==> min_ivs[i] <= max_ivs[i]
}

/// Law: encoding neither repairs nor breaks the IV-bound invariant.
pub proof fn lemma_encode_keeps_iv_bounds(m: FilterModel)
    ensures
        iv_bounds_consistent(m.min_ivs, m.max_ivs) <==> iv_bounds_consistent(
            encode_filter(m).min_ivs,
            encode_filter(m).max_ivs,
        ),
{
}

/// Law: the filter codec round-trips. Encoding then decoding any filter
/// model yields the very same model, field for field, and so does decoding
/// then encoding; absence is never coerced into a constraining default.
pub proof fn lemma_filter_round_trip(m: FilterModel, e: EngineFilterModel)
    ensures
        decode_filter(encode_filter(m)) == m,
        encode_filter(decode_filter(e)) == e,
{
}

} // verus!
