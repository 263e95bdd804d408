//! The entry point's verified half. The engine itself lives in a separate
//! crate distributed outside the package registry, so the single synchronous
//! call into it is made by the unverified host layer; this module binds and
//! converts everything that call consumes, and the result codec converts
//! everything it returns. The bridge keeps no state between invocations.

use vstd::prelude::*;

use crate::codes::{room_of, room_spec, version_of, version_spec, RoomType, Version};
use crate::filter::{encode_filter, to_engine, EngineFilter, EngineFilterModel, Filter, FilterModel};
use crate::results::{host_results, EngineAdvanceModel};

verus! {

/// Opaque seed material: four unsigned 32-bit words, handed to the engine
/// byte for byte unchanged and never interpreted or mutated by the bridge.
#[derive(Clone, Copy, PartialEq, Eq, Structural, Debug)]
pub struct SeedState {
    pub w0: u32,
    pub w1: u32,
    pub w2: u32,
    pub w3: u32,
}

/// Everything one engine invocation consumes, already in engine form: the
/// step count, the untouched seed words, the decoded version and room, the
/// opaque story flag and toggle, and the encoded filter.
pub struct EngineCall {
    pub advances: u32,
    pub seed: SeedState,
    pub version: Version,
    pub story_flag: u8,
    pub room: RoomType,
    pub filter: EngineFilter,
    pub diglett: bool,
}

/// Mathematical model of a prepared engine call.
pub ghost struct EngineCallModel {
    pub advances: u32,
    pub seed: SeedState,
    pub version: Version,
    pub story_flag: u8,
    pub room: RoomType,
    pub filter: EngineFilterModel,
    pub diglett: bool,
}

impl View for EngineCall {
    type V = EngineCallModel;

    open spec fn view(&self) -> EngineCallModel {
        EngineCallModel {
            advances: self.advances,
            seed: self.seed,
            version: self.version,
            story_flag: self.story_flag,
            room: self.room,
            filter: self.filter@,
            diglett: self.diglett,
        }
    }
}

/// What preparing a call yields: the version and room codes decoded through
/// their total mappings, the filter encoded losslessly, and every opaque
/// input passed through unchanged.
pub open spec fn prepare_spec(
    advances: u32,
    seed: SeedState,
    version_code: u8,
    story_flag: u8,
    room_code: u8,
    filter: FilterModel,
    diglett: bool,
) -> EngineCallModel {
    EngineCallModel {
        advances: advances,
        seed: seed,
        version: version_spec(version_code),
        story_flag: story_flag,
        room: room_spec(room_code),
        filter: encode_filter(filter),
        diglett: diglett,
    }
}

/// Binds all converted inputs for one engine invocation: decodes the version
/// and room codes, encodes the filter, and passes the seed words, the story
/// flag and the toggle through untouched. The unverified host layer hands
/// the result to the engine and pipes the engine's response through the
/// result codec.
pub fn prepare_call(
    advances: u32,
    seed: SeedState,
    version_code: u8,
    story_flag: u8,
    room_code: u8,
    filter: Filter,
    diglett: bool,
) -> (c: EngineCall)
    ensures
        c@ == prepare_spec(advances, seed, version_code, story_flag, room_code, filter@, diglett),
{
    EngineCall {
        advances: advances,
        seed: seed,
        version: version_of(version_code),
        story_flag: story_flag,
        room: room_of(room_code),
        filter: to_engine(filter),
        diglett: diglett,
    }
}

/// Law: the bridge is deterministic. Preparing a call is a function of the
/// arguments alone, and converting an engine response is a function of the
/// response alone; two invocations with identical inputs therefore prepare
/// identical engine calls, and identical engine responses convert to
/// identical host records, element for element.
pub proof fn lemma_bridge_deterministic(
    advances1: u32,
    seed1: SeedState,
    version_code1: u8,
    story_flag1: u8,
    room_code1: u8,
    filter1: FilterModel,
    diglett1: bool,
    response1: Seq<EngineAdvanceModel>,
    advances2: u32,
    seed2: SeedState,
    version_code2: u8,
    story_flag2: u8,
    room_code2: u8,
    filter2: FilterModel,
    diglett2: bool,
    response2: Seq<EngineAdvanceModel>,
)
    requires
        advances1 == advances2,
        seed1 == seed2,
        version_code1 == version_code2,
        story_flag1 == story_flag2,
        room_code1 == room_code2,
        filter1 == filter2,
        diglett1 == diglett2,
        response1 == response2,
    ensures
        prepare_spec(advances1, seed1, version_code1, story_flag1, room_code1, filter1, diglett1)
            == prepare_spec(
            advances2,
            seed2,
            version_code2,
            story_flag2,
            room_code2,
            filter2,
            diglett2,
        ),
        host_results(response1) == host_results(response2),
{
}

} // verus!
