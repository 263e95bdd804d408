use bdsp_ug_bridge::codes::{room_of, version_of, RoomType, Version};
use bdsp_ug_bridge::entry::{prepare_call, SeedState};
use bdsp_ug_bridge::filter::{from_engine, to_engine, Filter};
use bdsp_ug_bridge::results::{
    to_host, to_host_advance, to_host_pokemon, EngineAdvance, EnginePokemon,
};

fn open_filter() -> Filter {
    Filter::new(
        false,
        None,
        [0, 0, 0, 0, 0, 0],
        [31, 31, 31, 31, 31, 31],
        None,
        None,
        None,
        None,
        None,
    )
}

fn full_filter() -> Filter {
    Filter::new(
        true,
        Some(393),
        [3, 0, 10, 31, 5, 7],
        [31, 20, 31, 31, 30, 31],
        Some(1),
        Some(vec![3, 5, 8]),
        Some(229),
        Some(204),
        Some(1),
    )
}

fn sample_engine_pokemon(species: u16, ability: u8) -> EnginePokemon {
    EnginePokemon {
        species,
        ec: 0xDEAD_BEEF,
        pid: 0x1234_5678,
        shiny: false,
        ivs: [31, 0, 15, 7, 22, 1],
        ability,
        gender: 1,
        nature: 3,
        item: 55,
        egg_move: Some(204),
    }
}

#[test]
fn version_code_two_is_primary() {
    assert_eq!(version_of(2), Version::Primary);
}

#[test]
fn version_other_codes_are_secondary() {
    for code in [0u8, 1, 3, 4, 17, 100, 255] {
        assert_eq!(version_of(code), Version::Secondary);
    }
}

#[test]
fn room_codes_map_in_table_order() {
    assert_eq!(room_of(2), RoomType::SpaciousCave);
    assert_eq!(room_of(3), RoomType::GrasslandCave);
    assert_eq!(room_of(4), RoomType::FountainspringCave);
    assert_eq!(room_of(5), RoomType::RockyCave);
    assert_eq!(room_of(6), RoomType::VolcanicCave);
    assert_eq!(room_of(7), RoomType::SwampyCave);
    assert_eq!(room_of(8), RoomType::DazzlingCave);
    assert_eq!(room_of(9), RoomType::WhiteoutCave);
    assert_eq!(room_of(10), RoomType::IcyCave);
    assert_eq!(room_of(11), RoomType::RiverbankCave);
    assert_eq!(room_of(12), RoomType::SandsearCave);
    assert_eq!(room_of(13), RoomType::StillWaterCavern);
    assert_eq!(room_of(14), RoomType::SunlitCavern);
    assert_eq!(room_of(15), RoomType::BigBluffCavern);
    assert_eq!(room_of(16), RoomType::StargleamCavern);
    assert_eq!(room_of(17), RoomType::GlacialCavern);
    assert_eq!(room_of(18), RoomType::BogsunkCavern);
}

#[test]
fn room_unknown_codes_share_one_default() {
    for code in [0u8, 1, 19, 20, 42, 128, 255] {
        assert_eq!(room_of(code), RoomType::TyphloCavern);
    }
}

#[test]
fn room_named_variants_distinct() {
    let rooms: Vec<RoomType> = (2u8..=18).map(room_of).collect();
    for i in 0..rooms.len() {
        assert_ne!(rooms[i], RoomType::TyphloCavern);
        for j in 0..rooms.len() {
            if i != j {
                assert_ne!(rooms[i], rooms[j]);
            }
        }
    }
}

#[test]
fn filter_round_trip_all_absent() {
    let f = open_filter();
    let g = from_engine(to_engine(f.clone()));
    assert_eq!(g, f);
}

#[test]
fn filter_round_trip_all_present() {
    let f = full_filter();
    let g = from_engine(to_engine(f.clone()));
    assert_eq!(g, f);
}

#[test]
fn filter_encoding_preserves_every_field() {
    let e = to_engine(full_filter());
    assert_eq!(e.shiny, true);
    assert_eq!(e.species, Some(393));
    assert_eq!(e.min_ivs, [3, 0, 10, 31, 5, 7]);
    assert_eq!(e.max_ivs, [31, 20, 31, 31, 30, 31]);
    assert_eq!(e.ability, Some(1));
    assert_eq!(e.nature, Some(vec![3, 5, 8]));
    assert_eq!(e.item, Some(229));
    assert_eq!(e.egg_move, Some(204));
    assert_eq!(e.gender, Some(1));
}

#[test]
fn filter_absence_stays_absence() {
    let e = to_engine(open_filter());
    assert_eq!(e.species, None);
    assert_eq!(e.ability, None);
    assert_eq!(e.nature, None);
    assert_eq!(e.item, None);
    assert_eq!(e.egg_move, None);
    assert_eq!(e.gender, None);
    assert_eq!(e.min_ivs, [0, 0, 0, 0, 0, 0]);
    assert_eq!(e.max_ivs, [31, 31, 31, 31, 31, 31]);
}

#[test]
fn ability_widening_zero_extends() {
    for ability in [0u8, 1, 127, 128, 255] {
        let r = to_host_pokemon(&sample_engine_pokemon(25, ability));
        assert_eq!(r.ability, ability as u16);
    }
}

#[test]
fn encounter_fields_carry_over() {
    let p = sample_engine_pokemon(393, 2);
    let r = to_host_pokemon(&p);
    assert_eq!(r.species, 393);
    assert_eq!(r.ec, 0xDEAD_BEEF);
    assert_eq!(r.pid, 0x1234_5678);
    assert_eq!(r.shiny, false);
    assert_eq!(r.ivs, [31, 0, 15, 7, 22, 1]);
    assert_eq!(r.ability, 2u16);
    assert_eq!(r.gender, 1);
    assert_eq!(r.nature, 3);
    assert_eq!(r.item, 55);
    assert_eq!(r.egg_move, Some(204));
}

#[test]
fn advance_ordinal_is_populated() {
    let a = EngineAdvance { advance: 41, regular_pokemon: vec![], rare_pokemon: None };
    let r = to_host_advance(&a);
    assert_eq!(r.advance, Some(41));
    assert!(r.regular_pokemon.is_empty());
    assert_eq!(r.rare_pokemon, None);
}

#[test]
fn rare_encounter_carries_over() {
    let a = EngineAdvance {
        advance: 7,
        regular_pokemon: vec![],
        rare_pokemon: Some(sample_engine_pokemon(485, 200)),
    };
    let r = to_host_advance(&a);
    let rare = r.rare_pokemon.expect("rare encounter must survive conversion");
    assert_eq!(rare.species, 485);
    assert_eq!(rare.ability, 200u16);
}

#[test]
fn regular_order_preserved() {
    let a = EngineAdvance {
        advance: 0,
        regular_pokemon: vec![
            sample_engine_pokemon(10, 0),
            sample_engine_pokemon(20, 1),
            sample_engine_pokemon(30, 2),
            sample_engine_pokemon(20, 3),
        ],
        rare_pokemon: None,
    };
    let r = to_host_advance(&a);
    let species: Vec<u16> = r.regular_pokemon.iter().map(|p| p.species).collect();
    assert_eq!(species, vec![10, 20, 30, 20]);
    let abilities: Vec<u16> = r.regular_pokemon.iter().map(|p| p.ability).collect();
    assert_eq!(abilities, vec![0, 1, 2, 3]);
}

#[test]
fn whole_response_converted_in_order() {
    let raw = vec![
        EngineAdvance {
            advance: 5,
            regular_pokemon: vec![sample_engine_pokemon(1, 0)],
            rare_pokemon: None,
        },
        EngineAdvance { advance: 6, regular_pokemon: vec![], rare_pokemon: None },
        EngineAdvance {
            advance: 7,
            regular_pokemon: vec![sample_engine_pokemon(2, 1), sample_engine_pokemon(3, 2)],
            rare_pokemon: Some(sample_engine_pokemon(4, 3)),
        },
    ];
    let r = to_host(&raw);
    assert_eq!(r.len(), 3);
    assert_eq!(r[0].advance, Some(5));
    assert_eq!(r[1].advance, Some(6));
    assert_eq!(r[2].advance, Some(7));
    assert_eq!(r[0].regular_pokemon.len(), 1);
    assert_eq!(r[1].regular_pokemon.len(), 0);
    assert_eq!(r[2].regular_pokemon.len(), 2);
    assert_eq!(r[2].regular_pokemon[0].species, 2);
    assert_eq!(r[2].regular_pokemon[1].species, 3);
    assert!(r[2].rare_pokemon.is_some());
}

#[test]
fn prepare_call_decodes_and_passes_through() {
    let seed = SeedState { w0: 9, w1: 8, w2: 7, w3: 6 };
    let c = prepare_call(100, seed, 2, 3, 7, full_filter(), true);
    assert_eq!(c.advances, 100);
    assert_eq!(c.seed, seed);
    assert_eq!(c.version, Version::Primary);
    assert_eq!(c.story_flag, 3);
    assert_eq!(c.room, RoomType::SwampyCave);
    assert_eq!(c.filter, to_engine(full_filter()));
    assert_eq!(c.diglett, true);
}

#[test]
fn bridge_is_deterministic() {
    let seed = SeedState { w0: 1, w1: 2, w2: 3, w3: 4 };
    let c1 = prepare_call(50, seed, 0, 1, 11, full_filter(), false);
    let c2 = prepare_call(50, seed, 0, 1, 11, full_filter(), false);
    assert_eq!(c1.advances, c2.advances);
    assert_eq!(c1.seed, c2.seed);
    assert_eq!(c1.version, c2.version);
    assert_eq!(c1.story_flag, c2.story_flag);
    assert_eq!(c1.room, c2.room);
    assert_eq!(c1.filter, c2.filter);
    assert_eq!(c1.diglett, c2.diglett);

    let raw = vec![
        EngineAdvance {
            advance: 1,
            regular_pokemon: vec![sample_engine_pokemon(151, 9)],
            rare_pokemon: Some(sample_engine_pokemon(491, 10)),
        },
        EngineAdvance { advance: 2, regular_pokemon: vec![], rare_pokemon: None },
    ];
    assert_eq!(to_host(&raw), to_host(&raw));
}

#[test]
fn scenario_primary_version_room_five() {
    let seed = SeedState { w0: 1, w1: 2, w2: 3, w3: 4 };
    let c = prepare_call(10, seed, 2, 0, 5, open_filter(), false);
    assert_eq!(c.version, Version::Primary);
    assert_eq!(c.room, RoomType::RockyCave);
    assert_eq!(c.advances, 10);
    assert_eq!(c.seed, SeedState { w0: 1, w1: 2, w2: 3, w3: 4 });
    assert_eq!(c.diglett, false);
    assert_eq!(c.filter.shiny, false);
    assert_eq!(c.filter.species, None);

    let mut raw = Vec::new();
    for i in 0..10u32 {
        raw.push(EngineAdvance {
            advance: i,
            regular_pokemon: vec![sample_engine_pokemon(i as u16, i as u8)],
            rare_pokemon: None,
        });
    }
    let r = to_host(&raw);
    assert!(r.len() <= 10);
    assert_eq!(r.len(), 10);
    for i in 0..10usize {
        assert_eq!(r[i].advance, Some(i as u32));
        assert_eq!(r[i].regular_pokemon.len(), 1);
        assert_eq!(r[i].regular_pokemon[0].species, i as u16);
        assert_eq!(r[i].regular_pokemon[0].ability, i as u16);
        assert_eq!(r[i].rare_pokemon, None);
    }
}
