//! Final character data, to be directly used where it is needed.
//!
//! The derivation seeds an accumulator from the base abilities, folds every
//! flattened grant into it in order, and assembles the immutable sheet.

use vstd::prelude::*;

use crate::api::{ApiError, ApiResolver, AssetResolver};
use crate::assets::{Asset, MetaData, MetaDataView};
use crate::character::{
    flat_character, grant_view, grants_view, lemma_grants_view_index, level_ok, spec_level,
    Abilities, AsiView, Character, CharacterAssetGrant, GetAllGrants, GrantView, ASI,
};

verus! {

/// The ability-score modifier that belongs to a total score.
///
/// The division truncates toward zero, which differs from flooring when the
/// score sits below ten: a total of 9 has modifier 0, not -1.
pub open spec fn spec_modifier(total: int) -> int {
    let d = total - 10;
    if d >= 0 {
        d / 2
    } else {
        -((-d) / 2)
    }
}

/// One ability score: the rolled base and the modifiers accumulated on top.
#[derive(Debug, PartialEq, Eq, Structural, Clone, Copy)]
pub struct AbilityRoll {
    /// The rolled base score.
    pub base: i8,
    /// Everything grants have added on top of the base.
    pub mods: i8,
}

impl AbilityRoll {
    /// The total score: base plus accumulated modifiers.
    pub fn total(&self) -> (r: i8)
        requires
            i8::MIN <= self.base + self.mods <= i8::MAX,
        ensures
            r as int == self.base + self.mods,
    {
        self.base + self.mods
    }

    /// The modifier derived from the total score, truncated toward zero.
    pub fn modifier(&self) -> (r: i8)
        requires
            i8::MIN <= self.base + self.mods <= i8::MAX,
        ensures
            r as int == spec_modifier(self.base + self.mods),
            -69 <= r as int <= 58,
    {
        let d: i16 = self.total() as i16 - 10;
        if d >= 0 {
            (d / 2) as i8
        } else {
            (-((-d) / 2)) as i8
        }
    }
}

/// The six ability scores of a character.
#[derive(Debug, PartialEq, Eq, Structural, Clone, Copy)]
pub struct AbilityScores {
    /// Strength
    pub strength: AbilityRoll,
    /// Dexterity
    pub dexterity: AbilityRoll,
    /// Constitution
    pub constitution: AbilityRoll,
    /// Intelligence
    pub intelligence: AbilityRoll,
    /// Wisdom
    pub wisdom: AbilityRoll,
    /// Charisma
    pub charisma: AbilityRoll,
}

/// The scores that a base ability block seeds: each base as rolled, each
/// accumulated modifier zero.
pub open spec fn spec_scores_from(a: Abilities) -> AbilityScores {
    AbilityScores {
        strength: AbilityRoll { base: a.strength, mods: 0 },
        dexterity: AbilityRoll { base: a.dexterity, mods: 0 },
        constitution: AbilityRoll { base: a.constitution, mods: 0 },
        intelligence: AbilityRoll { base: a.intelligence, mods: 0 },
        wisdom: AbilityRoll { base: a.wisdom, mods: 0 },
        charisma: AbilityRoll { base: a.charisma, mods: 0 },
    }
}

impl From<Abilities> for AbilityScores {
    fn from(value: Abilities) -> (r: Self) {
        AbilityScores {
            strength: AbilityRoll { base: value.strength, mods: 0 },
            dexterity: AbilityRoll { base: value.dexterity, mods: 0 },
            constitution: AbilityRoll { base: value.constitution, mods: 0 },
            intelligence: AbilityRoll { base: value.intelligence, mods: 0 },
            wisdom: AbilityRoll { base: value.wisdom, mods: 0 },
            charisma: AbilityRoll { base: value.charisma, mods: 0 },
        }
    }
}

impl vstd::std_specs::convert::FromSpecImpl<Abilities> for AbilityScores {
    open spec fn obeys_from_spec() -> bool {
        true
    }

    open spec fn from_spec(v: Abilities) -> Self {
        spec_scores_from(v)
    }
}

/// Relies on `str`'s `PartialEq`: two string slices are equal exactly when
/// their characters are.
#[verifier::external_body]
fn str_eq(a: &str, b: &str) -> (r: bool)
    ensures
        r == (a@ == b@),
{
    a == b
}

/// What [`AbilityScores::add_to_mod`] leaves behind: the named ability's
/// accumulated modifier grown by `v`, everything else untouched.  A name
/// outside the six-ability domain changes nothing.
pub open spec fn spec_add_to_mod(s: AbilityScores, ability: Seq<char>, v: int) -> AbilityScores {
    if ability == "strength"@ {
        AbilityScores {
            strength: AbilityRoll { base: s.strength.base, mods: (s.strength.mods + v) as i8 },
            ..s
        }
    } else if ability == "dexterity"@ {
        AbilityScores {
            dexterity: AbilityRoll { base: s.dexterity.base, mods: (s.dexterity.mods + v) as i8 },
            ..s
        }
    } else if ability == "constitution"@ {
        AbilityScores {
            constitution: AbilityRoll {
                base: s.constitution.base,
                mods: (s.constitution.mods + v) as i8,
            },
            ..s
        }
    } else if ability == "intelligence"@ {
        AbilityScores {
            intelligence: AbilityRoll {
                base: s.intelligence.base,
                mods: (s.intelligence.mods + v) as i8,
            },
            ..s
        }
    } else if ability == "wisdom"@ {
        AbilityScores {
            wisdom: AbilityRoll { base: s.wisdom.base, mods: (s.wisdom.mods + v) as i8 },
            ..s
        }
    } else if ability == "charisma"@ {
        AbilityScores {
            charisma: AbilityRoll { base: s.charisma.base, mods: (s.charisma.mods + v) as i8 },
            ..s
        }
    } else {
        s
    }
}

/// Whether adding `v` to the named ability's modifier stays inside `i8`.
pub open spec fn can_add_to_mod(s: AbilityScores, ability: Seq<char>, v: int) -> bool {
    if ability == "strength"@ {
        i8::MIN <= s.strength.mods + v <= i8::MAX
    } else if ability == "dexterity"@ {
        i8::MIN <= s.dexterity.mods + v <= i8::MAX
    } else if ability == "constitution"@ {
        i8::MIN <= s.constitution.mods + v <= i8::MAX
    } else if ability == "intelligence"@ {
        i8::MIN <= s.intelligence.mods + v <= i8::MAX
    } else if ability == "wisdom"@ {
        i8::MIN <= s.wisdom.mods + v <= i8::MAX
    } else if ability == "charisma"@ {
        i8::MIN <= s.charisma.mods + v <= i8::MAX
    } else {
        true
    }
}

impl AbilityScores {
    /// Adds `v` to the accumulated modifier of the named ability.  A name
    /// outside the fixed six-name domain performs no update.
    pub fn add_to_mod(&mut self, ability: &str, v: i8)
        requires
            can_add_to_mod(*old(self), ability@, v as int),
        ensures
            *final(self) == spec_add_to_mod(*old(self), ability@, v as int),
    {
        if str_eq(ability, "strength") {
            self.strength.mods = self.strength.mods + v;
        } else if str_eq(ability, "dexterity") {
            self.dexterity.mods = self.dexterity.mods + v;
        } else if str_eq(ability, "constitution") {
            self.constitution.mods = self.constitution.mods + v;
        } else if str_eq(ability, "intelligence") {
            self.intelligence.mods = self.intelligence.mods + v;
        } else if str_eq(ability, "wisdom") {
            self.wisdom.mods = self.wisdom.mods + v;
        } else if str_eq(ability, "charisma") {
            self.charisma.mods = self.charisma.mods + v;
        }
    }
}

// ---------------------------------------------------------------------------
// The derivation model: an accumulator folded over the flattened grants.
// ---------------------------------------------------------------------------

/// The mathematical state of a derivation: the six accumulated modifiers as
/// unbounded integers, the current size, and the languages and proficiency
/// ids collected so far, in order.
#[verifier::ext_equal]
pub struct StatModel {
    /// Accumulated strength modifier
    pub strength: int,
    /// Accumulated dexterity modifier
    pub dexterity: int,
    /// Accumulated constitution modifier
    pub constitution: int,
    /// Accumulated intelligence modifier
    pub intelligence: int,
    /// Accumulated wisdom modifier
    pub wisdom: int,
    /// Accumulated charisma modifier
    pub charisma: int,
    /// The value of the last Size grant applied, initially empty
    pub size: Seq<char>,
    /// Languages in application order, duplicates kept
    pub languages: Seq<Seq<char>>,
    /// Proficiency ids in application order, duplicates kept
    pub proficiencies: Seq<Seq<char>>,
}

impl StatModel {
    /// The state before any grant is applied.
    pub open spec fn init() -> StatModel {
        StatModel {
            strength: 0,
            dexterity: 0,
            constitution: 0,
            intelligence: 0,
            wisdom: 0,
            charisma: 0,
            size: Seq::empty(),
            languages: Seq::empty(),
            proficiencies: Seq::empty(),
        }
    }
}

/// Adds `v` to the named accumulated modifier; an unknown name changes nothing.
pub open spec fn model_add(m: StatModel, ability: Seq<char>, v: int) -> StatModel {
    if ability == "strength"@ {
        StatModel { strength: m.strength + v, ..m }
    } else if ability == "dexterity"@ {
        StatModel { dexterity: m.dexterity + v, ..m }
    } else if ability == "constitution"@ {
        StatModel { constitution: m.constitution + v, ..m }
    } else if ability == "intelligence"@ {
        StatModel { intelligence: m.intelligence + v, ..m }
    } else if ability == "wisdom"@ {
        StatModel { wisdom: m.wisdom + v, ..m }
    } else if ability == "charisma"@ {
        StatModel { charisma: m.charisma + v, ..m }
    } else {
        m
    }
}

/// The effect of one grant on the derivation state.
///
/// A two-ability improvement adds one to each named ability, in order; a
/// single-ability improvement adds two.  A size grant overwrites the current
/// size.  Languages and proficiency ids append, never deduplicate.  Every
/// other grant, the composite nodes included, has no direct effect.
pub open spec fn apply_grant(m: StatModel, g: GrantView) -> StatModel {
    match g {
        GrantView::ASI(asi) => match asi {
            AsiView::Ability(first, second) => match second {
                Some(b) => model_add(model_add(m, first, 1), b, 1),
                None => model_add(m, first, 2),
            },
            AsiView::Feat { .. } => m,
        },
        GrantView::AbilityScore { id, add } => model_add(m, id, add),
        GrantView::Size { id } => StatModel { size: id, ..m },
        GrantView::Language { id } => StatModel { languages: m.languages.push(id), ..m },
        GrantView::Proficiency { id } => StatModel {
            proficiencies: m.proficiencies.push(id),
            ..m
        },
        _ => m,
    }
}

/// The state after applying every grant of `s`, in order, starting from `m`.
pub open spec fn fold_grants(m: StatModel, s: Seq<GrantView>) -> StatModel
    decreases s.len(),
{
    if s.len() == 0 {
        m
    } else {
        apply_grant(fold_grants(m, s.drop_last()), s.last())
    }
}

/// Whether every accumulated modifier of the state fits in `i8`.
pub open spec fn mods_in_range(m: StatModel) -> bool {
    &&& i8::MIN <= m.strength <= i8::MAX
    &&& i8::MIN <= m.dexterity <= i8::MAX
    &&& i8::MIN <= m.constitution <= i8::MAX
    &&& i8::MIN <= m.intelligence <= i8::MAX
    &&& i8::MIN <= m.wisdom <= i8::MAX
    &&& i8::MIN <= m.charisma <= i8::MAX
}

/// Whether the fold stays inside `i8` at every step, so that the running
/// state can be carried in the ability scores themselves.
pub open spec fn fold_in_range(m: StatModel, s: Seq<GrantView>) -> bool {
    forall|j: int| 0 <= j <= s.len() ==> mods_in_range(#[trigger] fold_grants(m, s.take(j)))
}

/// How executable scores realize a model state over a base ability block:
/// each base as rolled, each accumulated modifier equal to the model's.
pub open spec fn scores_match(a: Abilities, m: StatModel, s: AbilityScores) -> bool {
    &&& s.strength.base == a.strength && s.strength.mods as int == m.strength
    &&& s.dexterity.base == a.dexterity && s.dexterity.mods as int == m.dexterity
    &&& s.constitution.base == a.constitution && s.constitution.mods as int == m.constitution
    &&& s.intelligence.base == a.intelligence && s.intelligence.mods as int == m.intelligence
    &&& s.wisdom.base == a.wisdom && s.wisdom.mods as int == m.wisdom
    &&& s.charisma.base == a.charisma && s.charisma.mods as int == m.charisma
}

/// Whether a resolver answer counts as a successful proficiency resolution:
/// it must be a proficiency asset, anything else fails the derivation.
pub open spec fn resolution_ok(r: Result<Asset, ApiError>) -> bool {
    r matches Ok(Asset::Proficiency { .. })
}

/// The languages that a grant sequence contributes, in order, duplicates kept.
pub open spec fn langs_of(s: Seq<GrantView>) -> Seq<Seq<char>>
    decreases s.len(),
{
    if s.len() == 0 {
        Seq::empty()
    } else {
        langs_of(s.drop_last()) + (match s.last() {
            GrantView::Language { id } => seq![id],
            _ => Seq::empty(),
        })
    }
}

/// The proficiency ids that a grant sequence contributes, in order,
/// duplicates kept.
pub open spec fn profs_of(s: Seq<GrantView>) -> Seq<Seq<char>>
    decreases s.len(),
{
    if s.len() == 0 {
        Seq::empty()
    } else {
        profs_of(s.drop_last()) + (match s.last() {
            GrantView::Proficiency { id } => seq![id],
            _ => Seq::empty(),
        })
    }
}

/// Languages and proficiencies accumulate: folding a grant sequence appends
/// exactly the sequence's language and proficiency ids, in application
/// order, with no deduplication, and never touches what was there before.
pub proof fn lemma_fold_accumulates(m: StatModel, s: Seq<GrantView>)
    ensures
        fold_grants(m, s).languages == m.languages + langs_of(s),
        fold_grants(m, s).proficiencies == m.proficiencies + profs_of(s),
    decreases s.len(),
{
    if s.len() == 0 {
        assert(m.languages + langs_of(s) =~= m.languages);
        assert(m.proficiencies + profs_of(s) =~= m.proficiencies);
    } else {
        lemma_fold_accumulates(m, s.drop_last());
        assert(fold_grants(m, s).languages =~= m.languages + langs_of(s));
        assert(fold_grants(m, s).proficiencies =~= m.proficiencies + profs_of(s));
    }
}

/// The language and proficiency contributions distribute over concatenation.
pub proof fn lemma_contributions_concat(a: Seq<GrantView>, b: Seq<GrantView>)
    ensures
        langs_of(a + b) == langs_of(a) + langs_of(b),
        profs_of(a + b) == profs_of(a) + profs_of(b),
    decreases b.len(),
{
    if b.len() == 0 {
        assert(a + b =~= a);
        assert(langs_of(a) + langs_of(b) =~= langs_of(a));
        assert(profs_of(a) + profs_of(b) =~= profs_of(a));
    } else {
        lemma_contributions_concat(a, b.drop_last());
        assert((a + b).drop_last() =~= a + b.drop_last());
        assert(langs_of(a + b) =~= langs_of(a) + langs_of(b));
        assert(profs_of(a + b) =~= profs_of(a) + profs_of(b));
    }
}

// ---------------------------------------------------------------------------
// The sheet and its derivation.
// ---------------------------------------------------------------------------

/// A failed derivation.
#[derive(Debug, Clone, Copy)]
pub enum DerivationError {
    /// The external resolver could not resolve a referenced asset id, or
    /// answered with something that is not a proficiency asset.
    AssetResolution(ApiError),
}

/// This Struct is directly used when filling out fields in the ui character sheet
#[derive(Debug, PartialEq)]
pub struct CharacterSheet {
    /// The character's level
    pub level: i8,
    /// Armor class: ten plus the derived dexterity modifier
    pub armor_class: i8,
    /// The value of the last size grant, empty when none was granted
    pub size: String,
    /// Languages in grant order, duplicates kept
    pub languages: Vec<String>,
    /// The six derived ability scores
    pub ability_scores: AbilityScores,
    /// Metadata of every resolved proficiency, in grant order
    pub proficiencies: Vec<MetaData>,
}

/// Whether the resolver can answer the given proficiency id with a
/// proficiency asset whose metadata has the given content.
pub open spec fn prof_resolved<R: AssetResolver>(resolver: &R, id: Seq<char>, mdv: MetaDataView) -> bool {
    exists|md: MetaData|
        resolver.resolves("proficiency"@, id, Ok(Asset::Proficiency { metadata: md })) && mdv
            == md.deep_view()
}

/// Folds one grant into the running state, consulting the resolver when the
/// grant is a proficiency.  Reports whether the grant was applied; a failed
/// resolution applies nothing.
fn apply_step<R: AssetResolver>(
    resolver: &R,
    g: &CharacterAssetGrant,
    Ghost(a): Ghost<Abilities>,
    Ghost(m_pre): Ghost<StatModel>,
    scores: &mut AbilityScores,
    size: &mut String,
    languages: &mut Vec<String>,
    proficiencies: &mut Vec<MetaData>,
) -> (ok: bool)
    requires
        mods_in_range(m_pre),
        mods_in_range(apply_grant(m_pre, grant_view(*g))),
        scores_match(a, m_pre, *old(scores)),
        old(size)@ == m_pre.size,
        old(languages).deep_view() == m_pre.languages,
        old(proficiencies).deep_view().len() == m_pre.proficiencies.len(),
        forall|k: int|
            0 <= k < m_pre.proficiencies.len() ==> #[trigger] prof_resolved(
                resolver,
                m_pre.proficiencies[k],
                old(proficiencies).deep_view()[k],
            ),
    ensures
        ({
            let m_post = apply_grant(m_pre, grant_view(*g));
            &&& (ok ==> scores_match(a, m_post, *final(scores)))
            &&& (ok ==> final(size)@ == m_post.size)
            &&& (ok ==> final(languages).deep_view() == m_post.languages)
            &&& (ok ==> final(proficiencies).deep_view().len() == m_post.proficiencies.len())
            &&& (ok ==> (forall|k: int|
                0 <= k < m_post.proficiencies.len() ==> #[trigger] prof_resolved(
                    resolver,
                    m_post.proficiencies[k],
                    final(proficiencies).deep_view()[k],
                )))
            &&& (!ok ==> (grant_view(*g) matches GrantView::Proficiency { id } && (exists|
                res: Result<Asset, ApiError>,
            |
                #[trigger] resolver.resolves("proficiency"@, id, res) && !resolution_ok(res))))
            &&& (!(grant_view(*g) is Proficiency) ==> ok)
        }),
{
    let ghost m_post = apply_grant(m_pre, grant_view(*g));
    match g {
        CharacterAssetGrant::ASI(asi) => match asi {
            ASI::Ability(first, second) => match second {
                Some(b) => {
                    let ghost mid = model_add(m_pre, first@, 1);
                    proof {
                        assert(mods_in_range(mid));
                        assert(can_add_to_mod(*scores, first@, 1));
                    }
                    scores.add_to_mod(first.as_str(), 1);
                    proof {
                        assert(scores_match(a, mid, *scores));
                        assert(can_add_to_mod(*scores, b@, 1));
                    }
                    scores.add_to_mod(b.as_str(), 1);
                    proof {
                        assert(scores_match(a, m_post, *scores));
                    }
                    true
                },
                None => {
                    proof {
                        assert(can_add_to_mod(*scores, first@, 2));
                    }
                    scores.add_to_mod(first.as_str(), 2);
                    proof {
                        assert(scores_match(a, m_post, *scores));
                    }
                    true
                },
            },
            ASI::Feat { .. } => true,
        },
        CharacterAssetGrant::Size { id } => {
            *size = id.clone();
            true
        },
        CharacterAssetGrant::AbilityScore { id, add } => {
            proof {
                assert(can_add_to_mod(*scores, id@, *add as int));
            }
            scores.add_to_mod(id.as_str(), *add);
            proof {
                assert(scores_match(a, m_post, *scores));
            }
            true
        },
        CharacterAssetGrant::Language { id } => {
            let ghost dv_old = languages.deep_view();
            languages.push(id.clone());
            proof {
                assert(languages.deep_view() =~= dv_old.push(id@));
            }
            true
        },
        CharacterAssetGrant::Proficiency { id } => {
            let ghost idv = id@;
            let res = resolver.fetch_asset_definition("proficiency", id.as_str());
            let ghost resg = res;
            match res {
                Ok(asset) => match asset {
                    Asset::Proficiency { metadata } => {
                        let ghost mdg = metadata;
                        let ghost dv_old = proficiencies.deep_view();
                        proficiencies.push(metadata);
                        proof {
                            let dv_new = proficiencies.deep_view();
                            assert(dv_new =~= dv_old.push(mdg.deep_view()));
                            assert(m_post.proficiencies =~= m_pre.proficiencies.push(idv));
                            assert(resolver.resolves(
                                "proficiency"@,
                                idv,
                                Ok(Asset::Proficiency { metadata: mdg }),
                            ));
                            assert(prof_resolved(resolver, idv, mdg.deep_view()));
                            assert forall|k: int| 0 <= k < m_post.proficiencies.len()
                                implies #[trigger] prof_resolved(
                                resolver,
                                m_post.proficiencies[k],
                                dv_new[k],
                            ) by {
                                if k < m_pre.proficiencies.len() {
                                    assert(dv_old[k] == dv_new[k]);
                                    assert(m_post.proficiencies[k] == m_pre.proficiencies[k]);
                                    assert(prof_resolved(
                                        resolver,
                                        m_pre.proficiencies[k],
                                        dv_old[k],
                                    ));
                                } else {
                                    assert(m_post.proficiencies[k] == idv);
                                    assert(dv_new[k] == mdg.deep_view());
                                }
                            }
                        }
                        true
                    },
                    _ => {
                        proof {
                            assert(resolver.resolves("proficiency"@, idv, resg));
                            assert(!resolution_ok(resg));
                        }
                        false
                    },
                },
                Err(_) => {
                    proof {
                        assert(resolver.resolves("proficiency"@, idv, resg));
                        assert(!resolution_ok(resg));
                    }
                    false
                },
            }
        },
        _ => true,
    }
}

/// Derives the character sheet: computes the level, flattens every grant,
/// folds the grants into the accumulator in flatten order — consulting
/// `resolver` for each proficiency grant — computes the armor class, and
/// assembles the immutable sheet.
///
/// The derivation fails, returning no partial sheet, as soon as one
/// proficiency grant does not resolve to a proficiency asset.  With no
/// proficiency grant in reach, it cannot fail.
#[verifier::loop_isolation(false)]
pub fn derive<R: AssetResolver>(value: &Character, resolver: &R) -> (r: Result<
    CharacterSheet,
    DerivationError,
>)
    requires
        level_ok(value@.spec.assets.class),
        fold_in_range(StatModel::init(), flat_character(value@)),
        i8::MIN <= value@.spec.abilities.dexterity + fold_grants(
            StatModel::init(),
            flat_character(value@),
        ).dexterity <= i8::MAX,
    ensures
        ({
            let m = fold_grants(StatModel::init(), flat_character(value@));
            let a = value@.spec.abilities;
            &&& (r matches Ok(sheet) ==> {
                &&& sheet.level as int == spec_level(value@.spec.assets.class)
                &&& sheet.size@ == m.size
                &&& sheet.languages.deep_view() == m.languages
                &&& scores_match(a, m, sheet.ability_scores)
                &&& sheet.armor_class as int == 10 + spec_modifier(a.dexterity + m.dexterity)
                &&& sheet.proficiencies.deep_view().len() == m.proficiencies.len()
                &&& (forall|k: int|
                    0 <= k < m.proficiencies.len() ==> #[trigger] prof_resolved(
                        resolver,
                        m.proficiencies[k],
                        sheet.proficiencies.deep_view()[k],
                    ))
            })
            &&& (m.proficiencies.len() == 0 ==> r is Ok)
            &&& (r is Err ==> (r matches Err(DerivationError::AssetResolution(_))) && (exists|
                k: int,
                res: Result<Asset, ApiError>,
            |
                0 <= k < m.proficiencies.len() && #[trigger] resolver.resolves(
                    "proficiency"@,
                    m.proficiencies[k],
                    res,
                ) && !resolution_ok(res)))
        }),
{
    let ghost flatv = flat_character(value@);
    let ghost a = value.spec.abilities;
    let ghost m_full = fold_grants(StatModel::init(), flatv);
    let level = value.level();
    let mut scores: AbilityScores = AbilityScores::from(value.spec.abilities);
    let mut size: String = String::new();
    let mut languages: Vec<String> = Vec::new();
    let mut proficiencies: Vec<MetaData> = Vec::new();
    let flat = value.all_grants();
    proof {
        lemma_grants_view_index(flat@);
        assert(flatv.take(0) =~= Seq::<GrantView>::empty());
        assert(languages.deep_view() =~= Seq::<Seq<char>>::empty());
        assert(proficiencies.deep_view().len() == 0);
    }
    let mut i: usize = 0;
    while i < flat.len()
        invariant
            i <= flat.len(),
            grants_view(flat@) == flatv,
            flat@.len() == flatv.len(),
            scores_match(a, fold_grants(StatModel::init(), flatv.take(i as int)), scores),
            size@ == fold_grants(StatModel::init(), flatv.take(i as int)).size,
            languages.deep_view() == fold_grants(StatModel::init(), flatv.take(i as int)).languages,
            proficiencies.deep_view().len() == fold_grants(
                StatModel::init(),
                flatv.take(i as int),
            ).proficiencies.len(),
            forall|k: int|
                0 <= k < fold_grants(StatModel::init(), flatv.take(i as int)).proficiencies.len()
                    ==> #[trigger] prof_resolved(
                    resolver,
                    fold_grants(StatModel::init(), flatv.take(i as int)).proficiencies[k],
                    proficiencies.deep_view()[k],
                ),
        decreases flat.len() - i,
    {
        let ghost m_pre = fold_grants(StatModel::init(), flatv.take(i as int));
        let ghost m_post = fold_grants(StatModel::init(), flatv.take(i as int + 1));
        proof {
            assert(flatv.take(i as int + 1).drop_last() =~= flatv.take(i as int));
            assert(flatv.take(i as int + 1).last() == flatv[i as int]);
            assert(m_post == apply_grant(m_pre, flatv[i as int]));
            assert(flatv[i as int] == grant_view(flat@[i as int]));
            assert(mods_in_range(m_pre));
            assert(mods_in_range(m_post));
        }
        let ok = apply_step(
            resolver,
            &flat[i],
            Ghost(a),
            Ghost(m_pre),
            &mut scores,
            &mut size,
            &mut languages,
            &mut proficiencies,
        );
        if !ok {
            proof {
                let idv = flatv[i as int]->Proficiency_id;
                lemma_fold_accumulates(StatModel::init(), flatv);
                lemma_fold_accumulates(StatModel::init(), flatv.take(i as int));
                lemma_fold_accumulates(StatModel::init(), flatv.take(i as int + 1));
                assert(flatv =~= flatv.take(i as int + 1) + flatv.skip(i as int + 1));
                lemma_contributions_concat(flatv.take(i as int + 1), flatv.skip(i as int + 1));
                assert(profs_of(flatv.take(i as int + 1)) =~= profs_of(
                    flatv.take(i as int),
                ).push(idv));
                assert(m_pre.proficiencies =~= profs_of(flatv.take(i as int)));
                assert(m_full.proficiencies =~= profs_of(flatv));
                let kf = m_pre.proficiencies.len() as int;
                assert(m_full.proficiencies[kf] == idv);
                assert(kf < m_full.proficiencies.len());
                let res0 = choose|res: Result<Asset, ApiError>|
                    #[trigger] resolver.resolves("proficiency"@, idv, res) && !resolution_ok(res);
                assert(resolver.resolves("proficiency"@, m_full.proficiencies[kf], res0)
                    && !resolution_ok(res0));
            }
            return Err(DerivationError::AssetResolution(ApiError));
        }
        i += 1;
    }
    proof {
        assert(flatv.take(flatv.len() as int) =~= flatv);
    }
    let dexmod = scores.dexterity.modifier();
    let armor_class: i8 = 10 + dexmod;
    Ok(
        CharacterSheet {
            level,
            armor_class,
            size,
            languages,
            ability_scores: scores,
            proficiencies,
        },
    )
}

impl CharacterSheet {
    /// Converts a character into the sheet format the ui uses, resolving
    /// every proficiency through the api.  It does not validate the
    /// character beyond what the derivation itself needs.
    pub fn try_from(value: Character) -> (r: Result<CharacterSheet, DerivationError>)
        requires
            level_ok(value@.spec.assets.class),
            fold_in_range(StatModel::init(), flat_character(value@)),
            i8::MIN <= value@.spec.abilities.dexterity + fold_grants(
                StatModel::init(),
                flat_character(value@),
            ).dexterity <= i8::MAX,
        ensures
            r is Ok,
            ({
                let m = fold_grants(StatModel::init(), flat_character(value@));
                let a = value@.spec.abilities;
                r matches Ok(sheet) ==> {
                    &&& sheet.level as int == spec_level(value@.spec.assets.class)
                    &&& sheet.size@ == m.size
                    &&& sheet.languages.deep_view() == m.languages
                    &&& scores_match(a, m, sheet.ability_scores)
                    &&& sheet.armor_class as int == 10 + spec_modifier(a.dexterity + m.dexterity)
                    &&& sheet.proficiencies.deep_view() == m.proficiencies.map_values(
                        |id: Seq<char>| crate::api::spec_default_meta(id),
                    )
                }
            }),
    {
        let resolver = ApiResolver;
        let r = derive(&value, &resolver);
        proof {
            let m = fold_grants(StatModel::init(), flat_character(value@));
            if r is Err {
                let (k, res) = choose|k: int, res: Result<Asset, ApiError>|
                    0 <= k < m.proficiencies.len() && #[trigger] resolver.resolves(
                        "proficiency"@,
                        m.proficiencies[k],
                        res,
                    ) && !resolution_ok(res);
                assert(false);
            }
            let sheet = r->Ok_0;
            let ids = m.proficiencies;
            let mapped = ids.map_values(|id: Seq<char>| crate::api::spec_default_meta(id));
            assert forall|k: int| 0 <= k < ids.len() implies sheet.proficiencies.deep_view()[k]
                == mapped[k] by {
                assert(prof_resolved(&resolver, ids[k], sheet.proficiencies.deep_view()[k]));
                let md = choose|md: MetaData|
                    resolver.resolves(
                        "proficiency"@,
                        ids[k],
                        Ok(Asset::Proficiency { metadata: md }),
                    ) && sheet.proficiencies.deep_view()[k] == md.deep_view();
                assert(md.deep_view() == crate::api::spec_default_meta(ids[k]));
            }
            assert(sheet.proficiencies.deep_view() =~= mapped);
        }
        r
    }
}

/// The size of a derivation is the last size grant applied: applying one
/// size grant and then another, whatever stands between them contributes no
/// size, leaves the second one's value.
pub proof fn lemma_size_overwrite(m: StatModel, first: GrantView, second: GrantView)
    requires
        first matches GrantView::Size { .. },
        second matches GrantView::Size { .. },
    ensures
        fold_grants(m, seq![first, second]).size == apply_grant(m, second).size,
        fold_grants(m, seq![first, second]).size == second->Size_id,
{
    let s = seq![first, second];
    assert(s.drop_last() =~= seq![first]);
    assert(seq![first].drop_last() =~= Seq::<GrantView>::empty());
}

} // verus!
