use validator::api::{ApiError, AssetResolver};
use validator::assets::{Asset, MetaData};
use validator::character::{
    Abilities, Character, CharacterAssetGrant, CharacterAssets, CharacterClass,
    CharacterClassSpec, CharacterRace, CharacterSpec, ASI,
};
use validator::character_sheet::{AbilityRoll, AbilityScores, CharacterSheet, DerivationError};

#[test]
fn test_ability_scores_add_to_mod() {
    let mut scores = AbilityScores {
        strength: AbilityRoll { base: 9, mods: 3 },
        dexterity: AbilityRoll { base: 20, mods: 1 },
        constitution: AbilityRoll { base: 11, mods: 4 },
        intelligence: AbilityRoll { base: 11, mods: 2 },
        wisdom: AbilityRoll { base: 10, mods: 0 },
        charisma: AbilityRoll { base: 13, mods: -1 },
    };

    scores.add_to_mod("strength", 1);
    scores.add_to_mod("dexterity", 0);
    scores.add_to_mod("constitution", -1);
    scores.add_to_mod("intelligence", 2);
    scores.add_to_mod("wisdom", 2);
    scores.add_to_mod("charisma", 1);

    assert_eq!(scores.strength.mods, 4);
    assert_eq!(scores.dexterity.mods, 1);
    assert_eq!(scores.constitution.mods, 3);
    assert_eq!(scores.intelligence.mods, 4);
    assert_eq!(scores.wisdom.mods, 2);
    assert_eq!(scores.charisma.mods, 0);
}

#[test]
fn add_to_mod_ignores_an_unknown_ability_name() {
    let mut scores = AbilityScores {
        strength: AbilityRoll { base: 9, mods: 0 },
        dexterity: AbilityRoll { base: 20, mods: 0 },
        constitution: AbilityRoll { base: 11, mods: 0 },
        intelligence: AbilityRoll { base: 11, mods: 0 },
        wisdom: AbilityRoll { base: 10, mods: 0 },
        charisma: AbilityRoll { base: 13, mods: 0 },
    };
    let before = scores;
    scores.add_to_mod("luck", 3);
    assert_eq!(scores, before);
}

#[test]
fn modifier_truncates_toward_zero() {
    // (23 - 10) / 2 rounds 6.5 down to 6.
    assert_eq!(AbilityRoll { base: 23, mods: 0 }.modifier(), 6);
    // (9 - 10) / 2 truncates -0.5 to 0; flooring would give -1.
    assert_eq!(AbilityRoll { base: 9, mods: 0 }.modifier(), 0);
    // (-3 - 10) / 2 truncates -6.5 to -6; flooring would give -7.
    assert_eq!(AbilityRoll { base: -3, mods: 0 }.modifier(), -6);
    assert_eq!(AbilityRoll { base: 10, mods: 0 }.modifier(), 0);
    assert_eq!(AbilityRoll { base: 8, mods: 4 }.modifier(), 1);
}

fn meta() -> MetaData {
    MetaData {
        id: "uuid-lmao-lol".to_string(),
        name: "foobar".to_string(),
        notes: Some("yall are sick".to_string()),
        description: None,
        extra: Default::default(),
    }
}

fn base_abilities() -> Abilities {
    Abilities {
        strength: 9,
        dexterity: 20,
        constitution: 11,
        intelligence: 11,
        wisdom: 10,
        charisma: 13,
    }
}

fn character_with_race_grants(grants: Vec<CharacterAssetGrant>) -> Character {
    Character {
        metadata: meta(),
        spec: CharacterSpec {
            abilities: base_abilities(),
            assets: CharacterAssets {
                class: CharacterClassSpec::Single(CharacterClass {
                    id: String::from("fighter"),
                    level: 1,
                    multiclass: false,
                    grants: vec![],
                }),
                race: CharacterRace {
                    id: String::from("elf"),
                    grants,
                },
            },
        },
    }
}

#[test]
fn test_character_sheet_conversion() {
    let ch = Character {
        metadata: MetaData {
            id: "uuid-lmao-lol".to_string(),
            name: "foobar".to_string(),
            notes: Some("yall are sick".to_string()),
            description: None,
            extra: Default::default(),
        },
        spec: CharacterSpec {
            abilities: Abilities {
                strength: 9,
                dexterity: 20,
                constitution: 11,
                intelligence: 11,
                wisdom: 10,
                charisma: 13,
            },
            assets: CharacterAssets {
                class: CharacterClassSpec::Single(CharacterClass {
                    id: String::from("fighter"),
                    level: 1,
                    multiclass: false,
                    grants: vec![
                        CharacterAssetGrant::ASI(ASI::Ability(
                            String::from("strength"),
                            Some(String::from("dexterity")),
                        )),
                        CharacterAssetGrant::ASI(ASI::Feat {
                            id: String::from("this feat"),
                            grants: vec![CharacterAssetGrant::AbilityScore {
                                id: String::from("constitution"),
                                add: 1,
                            }],
                        }),
                    ],
                }),
                race: CharacterRace {
                    id: String::from("elf"),
                    grants: vec![
                        CharacterAssetGrant::Size {
                            id: String::from("medium"),
                        },
                        CharacterAssetGrant::AbilityScore {
                            id: String::from("dexterity"),
                            add: 2,
                        },
                        CharacterAssetGrant::Language {
                            id: String::from("common"),
                        },
                        CharacterAssetGrant::Language {
                            id: String::from("elvish"),
                        },
                        CharacterAssetGrant::Trait {
                            id: String::from("keen-senses"),
                            grants: vec![CharacterAssetGrant::Proficiency {
                                id: String::from("perception"),
                            }],
                        },
                    ],
                },
            },
        },
    };

    let expected = CharacterSheet {
        level: 1,
        armor_class: 16,
        size: String::from("medium"),
        languages: vec![String::from("common"), String::from("elvish")],
        proficiencies: vec![MetaData {
            id: String::from("perception"),
            name: Default::default(),
            notes: None,
            description: None,
            extra: Default::default(),
        }],
        ability_scores: AbilityScores {
            strength: AbilityRoll { base: 9, mods: 1 },
            dexterity: AbilityRoll { base: 20, mods: 3 },
            constitution: AbilityRoll { base: 11, mods: 1 },
            intelligence: AbilityRoll { base: 11, mods: 0 },
            wisdom: AbilityRoll { base: 10, mods: 0 },
            charisma: AbilityRoll { base: 13, mods: 0 },
        },
    };

    assert_eq!(expected, CharacterSheet::try_from(ch).unwrap());
}

#[test]
fn size_is_overwritten_by_the_last_size_grant() {
    let ch = character_with_race_grants(vec![
        CharacterAssetGrant::Size {
            id: String::from("a"),
        },
        CharacterAssetGrant::Size {
            id: String::from("b"),
        },
    ]);
    let sheet = CharacterSheet::try_from(ch).unwrap();
    assert_eq!(sheet.size, "b");
}

#[test]
fn languages_accumulate_in_order_without_deduplication() {
    let ch = character_with_race_grants(vec![
        CharacterAssetGrant::Language {
            id: String::from("common"),
        },
        CharacterAssetGrant::Language {
            id: String::from("elvish"),
        },
        CharacterAssetGrant::Language {
            id: String::from("common"),
        },
    ]);
    let sheet = CharacterSheet::try_from(ch).unwrap();
    assert_eq!(
        sheet.languages,
        vec![
            String::from("common"),
            String::from("elvish"),
            String::from("common"),
        ]
    );
}

#[test]
fn proficiencies_accumulate_in_order_without_deduplication() {
    let ch = character_with_race_grants(vec![
        CharacterAssetGrant::Proficiency {
            id: String::from("perception"),
        },
        CharacterAssetGrant::Proficiency {
            id: String::from("stealth"),
        },
        CharacterAssetGrant::Proficiency {
            id: String::from("perception"),
        },
    ]);
    let sheet = CharacterSheet::try_from(ch).unwrap();
    let ids: Vec<String> = sheet.proficiencies.iter().map(|m| m.id.clone()).collect();
    assert_eq!(
        ids,
        vec![
            String::from("perception"),
            String::from("stealth"),
            String::from("perception"),
        ]
    );
}

struct FailingResolver;

impl AssetResolver for FailingResolver {
    fn fetch_asset_definition(&self, _asset_type: &str, _id: &str) -> Result<Asset, ApiError> {
        Err(ApiError)
    }
}

struct WrongShapeResolver;

impl AssetResolver for WrongShapeResolver {
    fn fetch_asset_definition(&self, _asset_type: &str, id: &str) -> Result<Asset, ApiError> {
        Ok(Asset::Language {
            metadata: MetaData {
                id: id.to_string(),
                name: String::new(),
                notes: None,
                description: None,
                extra: Vec::new(),
            },
        })
    }
}

struct RenamingResolver;

impl AssetResolver for RenamingResolver {
    fn fetch_asset_definition(&self, _asset_type: &str, id: &str) -> Result<Asset, ApiError> {
        Ok(Asset::Proficiency {
            metadata: MetaData {
                id: id.to_string(),
                name: format!("Pretty {}", id),
                notes: None,
                description: None,
                extra: Vec::new(),
            },
        })
    }
}

#[test]
fn failing_resolution_fails_the_whole_derivation() {
    let ch = character_with_race_grants(vec![
        CharacterAssetGrant::Language {
            id: String::from("common"),
        },
        CharacterAssetGrant::Proficiency {
            id: String::from("perception"),
        },
    ]);
    let r = validator::character_sheet::derive(&ch, &FailingResolver);
    assert!(matches!(r, Err(DerivationError::AssetResolution(_))));
}

#[test]
fn wrongly_shaped_resolution_fails_the_whole_derivation() {
    let ch = character_with_race_grants(vec![CharacterAssetGrant::Proficiency {
        id: String::from("perception"),
    }]);
    let r = validator::character_sheet::derive(&ch, &WrongShapeResolver);
    assert!(matches!(r, Err(DerivationError::AssetResolution(_))));
}

#[test]
fn derivation_uses_the_injected_resolver() {
    let ch = character_with_race_grants(vec![CharacterAssetGrant::Proficiency {
        id: String::from("perception"),
    }]);
    let sheet = validator::character_sheet::derive(&ch, &RenamingResolver).unwrap();
    assert_eq!(sheet.proficiencies.len(), 1);
    assert_eq!(sheet.proficiencies[0].id, "perception");
    assert_eq!(sheet.proficiencies[0].name, "Pretty perception");
}

#[test]
fn grantless_character_gets_base_sheet() {
    let ch = character_with_race_grants(vec![]);
    let sheet = CharacterSheet::try_from(ch).unwrap();
    assert_eq!(sheet.level, 1);
    // Dexterity 20 gives modifier 5, so the armor class is 15.
    assert_eq!(sheet.armor_class, 15);
    assert_eq!(sheet.size, "");
    assert!(sheet.languages.is_empty());
    assert!(sheet.proficiencies.is_empty());
}

#[test]
fn single_ability_improvement_adds_two() {
    let ch = character_with_race_grants(vec![CharacterAssetGrant::ASI(ASI::Ability(
        String::from("wisdom"),
        None,
    ))]);
    let sheet = CharacterSheet::try_from(ch).unwrap();
    assert_eq!(sheet.ability_scores.wisdom.mods, 2);
}

#[test]
fn ability_score_grants_may_subtract() {
    let ch = character_with_race_grants(vec![CharacterAssetGrant::AbilityScore {
        id: String::from("charisma"),
        add: -2,
    }]);
    let sheet = CharacterSheet::try_from(ch).unwrap();
    assert_eq!(sheet.ability_scores.charisma.mods, -2);
    assert_eq!(sheet.ability_scores.charisma.base, 13);
}

#[test]
fn subrace_and_subclass_grants_reach_the_sheet() {
    let ch = character_with_race_grants(vec![
        CharacterAssetGrant::SubRace {
            id: String::from("high-elf"),
            grants: vec![CharacterAssetGrant::Language {
                id: String::from("draconic"),
            }],
        },
        CharacterAssetGrant::SubClass {
            id: String::from("champion"),
            grants: vec![CharacterAssetGrant::Size {
                id: String::from("small"),
            }],
        },
    ]);
    let sheet = CharacterSheet::try_from(ch).unwrap();
    assert_eq!(sheet.languages, vec![String::from("draconic")]);
    assert_eq!(sheet.size, "small");
}

#[test]
fn multi_class_grants_apply_in_class_list_order() {
    let ch = Character {
        metadata: meta(),
        spec: CharacterSpec {
            abilities: base_abilities(),
            assets: CharacterAssets {
                class: CharacterClassSpec::Multi(vec![
                    CharacterClass {
                        id: String::from("fighter"),
                        level: 3,
                        multiclass: false,
                        grants: vec![CharacterAssetGrant::Size {
                            id: String::from("first"),
                        }],
                    },
                    CharacterClass {
                        id: String::from("rogue"),
                        level: 2,
                        multiclass: true,
                        grants: vec![CharacterAssetGrant::Size {
                            id: String::from("second"),
                        }],
                    },
                ]),
                race: CharacterRace {
                    id: String::from("elf"),
                    grants: vec![],
                },
            },
        },
    };
    let sheet = CharacterSheet::try_from(ch).unwrap();
    assert_eq!(sheet.level, 5);
    // The later class's size grant lands after the earlier one's.
    assert_eq!(sheet.size, "second");
}
