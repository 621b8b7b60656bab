//! Character

use vstd::prelude::*;

use crate::api::fetch_asset_definition;
use crate::assets::{Asset, MetaData, MetaDataView};

verus! {

/// The Character Spec that stores all necessary data to build a Character Sheet
#[derive(Debug, PartialEq)]
pub struct Character {
    /// The Character's metadata
    pub metadata: MetaData,
    /// The Character's spec
    pub spec: CharacterSpec,
}

/// Character Specification
#[derive(Debug, PartialEq)]
pub struct CharacterSpec {
    /// The Ability Scores for a Character
    pub abilities: Abilities,
    /// The Character's assets
    pub assets: CharacterAssets,
}

/// CharacterAssets
#[derive(Debug, PartialEq)]
pub struct CharacterAssets {
    /// CharacterClassSpec
    pub class: CharacterClassSpec,
    /// CharacterRace
    pub race: CharacterRace,
}

/// CharacterClassSpec
#[derive(Debug, PartialEq)]
pub enum CharacterClassSpec {
    /// For Multi-Classed Characters
    Multi(Vec<CharacterClass>),
    /// For Single-Class Characters
    Single(CharacterClass),
}

/// A Character's Class
#[derive(Debug, PartialEq)]
pub struct CharacterClass {
    /// Unique ID
    pub id: String,
    /// The Class Level
    pub level: i8,
    /// If this class was chosen as a multi-class
    pub multiclass: bool,
    /// Assets that are granted to the Character by this class
    pub grants: Vec<CharacterAssetGrant>,
}

/// A Character's Race
#[derive(Debug, PartialEq)]
pub struct CharacterRace {
    /// Unique ID
    pub id: String,
    /// Assets that are granted to the Character by this race
    pub grants: Vec<CharacterAssetGrant>,
}

/// Assets granted to a Character.  `Trait`, `SubRace`, `SubClass` and a
/// feat-carrying `ASI` own further grants, so a value of this type is a tree.
#[derive(Debug, PartialEq)]
pub enum CharacterAssetGrant {
    /// Grants a Proficiency to the Character
    Proficiency {
        /// Unique ID
        id: String,
    },
    /// Grants a Language to the Character
    Language {
        /// Unique ID
        id: String,
    },
    /// Grants a Feature to the Character
    Feature {
        /// Unique ID
        id: String,
    },
    /// Grants a Spell to the Character
    Spell {
        /// Unique ID
        id: String,
    },
    /// Grants a Size to the Character
    Size {
        /// Unique ID
        id: String,
    },
    /// Grants a Trait to the Character
    Trait {
        /// Unique ID
        id: String,
        /// Assets that are granted to the Character by this Trait
        grants: Vec<CharacterAssetGrant>,
    },
    /// Grants a SubRace to the Character
    SubRace {
        /// Unique ID
        id: String,
        /// Assets that are granted to the Character by this SubRace
        grants: Vec<CharacterAssetGrant>,
    },
    /// Grants a SubClass to the Character
    SubClass {
        /// Unique ID
        id: String,
        /// Assets that are granted to the Character by this SubClass
        grants: Vec<CharacterAssetGrant>,
    },
    /// Grants an ASI to the Character
    ASI(ASI),
    /// Grants Advantage to a roll to the Character
    Advantage {
        /// Unique ID of the roll to grant advantage to
        id: String,
    },
    /// Grants Disadvantage to a roll to the Character
    Disadvantage {
        /// Unique ID of the roll to grant disadvantage to
        id: String,
    },
    /// Adds a number to an AbilityScore
    AbilityScore {
        /// ID of the AbilityScore to modify
        id: String,
        /// Number to add to the AbilityScore
        add: i8,
    },
}

/// Ability Score Improvement
#[derive(Debug, PartialEq)]
pub enum ASI {
    /// Ability Scores to Improve
    Ability(String, Option<String>),
    /// Feat to get if not taking Ability Score Improvement
    Feat {
        /// Feat ID
        id: String,
        /// Assets granted to the Character by this Feat
        grants: Vec<CharacterAssetGrant>,
    },
}

/// A Character's Ability Scores
#[derive(Debug, PartialEq, Eq, Structural, Clone, Copy)]
pub struct Abilities {
    /// Strength
    pub strength: i8,
    /// Dexterity
    pub dexterity: i8,
    /// Constitution
    pub constitution: i8,
    /// Intelligence
    pub intelligence: i8,
    /// Wisdom
    pub wisdom: i8,
    /// Charisma
    pub charisma: i8,
}

// ---------------------------------------------------------------------------
// Mathematical views of the character model.  Every string becomes a sequence
// of characters, every grant list a sequence, every level an integer.
// ---------------------------------------------------------------------------

/// The mathematical content of a [`CharacterAssetGrant`].
#[verifier::ext_equal]
pub enum GrantView {
    /// Grants a Proficiency
    Proficiency { id: Seq<char> },
    /// Grants a Language
    Language { id: Seq<char> },
    /// Grants a Feature
    Feature { id: Seq<char> },
    /// Grants a Spell
    Spell { id: Seq<char> },
    /// Grants a Size
    Size { id: Seq<char> },
    /// Grants a Trait and its nested grants
    Trait { id: Seq<char>, grants: Seq<GrantView> },
    /// Grants a SubRace and its nested grants
    SubRace { id: Seq<char>, grants: Seq<GrantView> },
    /// Grants a SubClass and its nested grants
    SubClass { id: Seq<char>, grants: Seq<GrantView> },
    /// Grants an ASI
    ASI(AsiView),
    /// Grants Advantage to a roll
    Advantage { id: Seq<char> },
    /// Grants Disadvantage to a roll
    Disadvantage { id: Seq<char> },
    /// Adds a number to an AbilityScore
    AbilityScore { id: Seq<char>, add: int },
}

/// The mathematical content of an [`ASI`].
#[verifier::ext_equal]
pub enum AsiView {
    /// Ability Scores to Improve
    Ability(Seq<char>, Option<Seq<char>>),
    /// Feat and its nested grants
    Feat { id: Seq<char>, grants: Seq<GrantView> },
}

/// The mathematical content of a [`CharacterClass`].
#[verifier::ext_equal]
pub struct ClassView {
    /// Unique ID
    pub id: Seq<char>,
    /// The Class Level
    pub level: int,
    /// If this class was chosen as a multi-class
    pub multiclass: bool,
    /// Grants of this class
    pub grants: Seq<GrantView>,
}

/// The mathematical content of a [`CharacterClassSpec`].
#[verifier::ext_equal]
pub enum ClassSpecView {
    /// For Multi-Classed Characters
    Multi(Seq<ClassView>),
    /// For Single-Class Characters
    Single(ClassView),
}

/// The mathematical content of a [`CharacterRace`].
#[verifier::ext_equal]
pub struct RaceView {
    /// Unique ID
    pub id: Seq<char>,
    /// Grants of this race
    pub grants: Seq<GrantView>,
}

/// The mathematical content of a [`CharacterAssets`].
#[verifier::ext_equal]
pub struct AssetsView {
    /// Class specification
    pub class: ClassSpecView,
    /// Race
    pub race: RaceView,
}

/// The mathematical content of a [`CharacterSpec`].
#[verifier::ext_equal]
pub struct CharacterSpecView {
    /// Base ability scores
    pub abilities: Abilities,
    /// Class and race assets
    pub assets: AssetsView,
}

/// The mathematical content of a [`Character`].
#[verifier::ext_equal]
pub struct CharacterView {
    /// Metadata
    pub metadata: MetaDataView,
    /// Specification
    pub spec: CharacterSpecView,
}

/// The view of one grant: the same tree over sequences.
pub open spec fn grant_view(g: CharacterAssetGrant) -> GrantView
    decreases g,
{
    match g {
        CharacterAssetGrant::Proficiency { id } => GrantView::Proficiency { id: id@ },
        CharacterAssetGrant::Language { id } => GrantView::Language { id: id@ },
        CharacterAssetGrant::Feature { id } => GrantView::Feature { id: id@ },
        CharacterAssetGrant::Spell { id } => GrantView::Spell { id: id@ },
        CharacterAssetGrant::Size { id } => GrantView::Size { id: id@ },
        CharacterAssetGrant::Trait { id, grants } => GrantView::Trait {
            id: id@,
            grants: grants_view(grants@),
        },
        CharacterAssetGrant::SubRace { id, grants } => GrantView::SubRace {
            id: id@,
            grants: grants_view(grants@),
        },
        CharacterAssetGrant::SubClass { id, grants } => GrantView::SubClass {
            id: id@,
            grants: grants_view(grants@),
        },
        CharacterAssetGrant::ASI(asi) => GrantView::ASI(asi_view(asi)),
        CharacterAssetGrant::Advantage { id } => GrantView::Advantage { id: id@ },
        CharacterAssetGrant::Disadvantage { id } => GrantView::Disadvantage { id: id@ },
        CharacterAssetGrant::AbilityScore { id, add } => GrantView::AbilityScore {
            id: id@,
            add: add as int,
        },
    }
}

/// The view of an ASI.
pub open spec fn asi_view(a: ASI) -> AsiView
    decreases a,
{
    match a {
        ASI::Ability(first, second) => AsiView::Ability(
            first@,
            match second {
                Some(s) => Some(s@),
                None => None,
            },
        ),
        ASI::Feat { id, grants } => AsiView::Feat { id: id@, grants: grants_view(grants@) },
    }
}

/// The view of a grant list, element by element, order preserved.
pub open spec fn grants_view(s: Seq<CharacterAssetGrant>) -> Seq<GrantView>
    decreases s,
{
    if s.len() == 0 {
        Seq::empty()
    } else {
        grants_view(s.drop_last()).push(grant_view(s.last()))
    }
}

/// The view of a class list, element by element, order preserved.
pub open spec fn classes_view(s: Seq<CharacterClass>) -> Seq<ClassView>
    decreases s,
{
    if s.len() == 0 {
        Seq::empty()
    } else {
        classes_view(s.drop_last()).push(s.last()@)
    }
}

impl View for CharacterAssetGrant {
    type V = GrantView;

    open spec fn view(&self) -> GrantView {
        grant_view(*self)
    }
}

impl View for ASI {
    type V = AsiView;

    open spec fn view(&self) -> AsiView {
        asi_view(*self)
    }
}

impl View for CharacterClass {
    type V = ClassView;

    open spec fn view(&self) -> ClassView {
        ClassView {
            id: self.id@,
            level: self.level as int,
            multiclass: self.multiclass,
            grants: grants_view(self.grants@),
        }
    }
}

impl View for CharacterClassSpec {
    type V = ClassSpecView;

    open spec fn view(&self) -> ClassSpecView {
        match *self {
            CharacterClassSpec::Multi(classes) => ClassSpecView::Multi(classes_view(classes@)),
            CharacterClassSpec::Single(class) => ClassSpecView::Single(class@),
        }
    }
}

impl View for CharacterRace {
    type V = RaceView;

    open spec fn view(&self) -> RaceView {
        RaceView { id: self.id@, grants: grants_view(self.grants@) }
    }
}

impl View for CharacterAssets {
    type V = AssetsView;

    open spec fn view(&self) -> AssetsView {
        AssetsView { class: self.class@, race: self.race@ }
    }
}

impl View for CharacterSpec {
    type V = CharacterSpecView;

    open spec fn view(&self) -> CharacterSpecView {
        CharacterSpecView { abilities: self.abilities, assets: self.assets@ }
    }
}

impl View for Character {
    type V = CharacterView;

    open spec fn view(&self) -> CharacterView {
        CharacterView { metadata: self.metadata.deep_view(), spec: self.spec@ }
    }
}

// ---------------------------------------------------------------------------
// Flattening: a grant tree becomes one ordered sequence.  Each composite
// node contributes the flattening of its children, in order, and then itself.
// ---------------------------------------------------------------------------

/// The complete flattened sequence reachable from one grant: for a leaf the
/// grant alone, for a composite the flattening of every child in the child
/// list's order, with the composite itself appended last.
pub open spec fn flat_grant(g: GrantView) -> Seq<GrantView>
    decreases g,
{
    match g {
        GrantView::Trait { id: _, grants } => flat_grants(grants).push(g),
        GrantView::SubRace { id: _, grants } => flat_grants(grants).push(g),
        GrantView::SubClass { id: _, grants } => flat_grants(grants).push(g),
        GrantView::ASI(asi) => match asi {
            AsiView::Feat { id: _, grants } => flat_grants(grants).push(g),
            AsiView::Ability(_, _) => seq![g],
        },
        _ => seq![g],
    }
}

/// The flattening of a grant list: each grant flattened, concatenated in the
/// list's order.
pub open spec fn flat_grants(s: Seq<GrantView>) -> Seq<GrantView>
    decreases s,
{
    if s.len() == 0 {
        Seq::empty()
    } else {
        flat_grants(s.drop_last()) + flat_grant(s.last())
    }
}

/// The flattening of a class list: each class's grant list flattened,
/// concatenated in class-list order.
pub open spec fn flat_classes(s: Seq<ClassView>) -> Seq<GrantView>
    decreases s.len(),
{
    if s.len() == 0 {
        Seq::empty()
    } else {
        flat_classes(s.drop_last()) + flat_grants(s.last().grants)
    }
}

/// The flattening of the class contribution of a character.
pub open spec fn flat_class_spec(cs: ClassSpecView) -> Seq<GrantView> {
    match cs {
        ClassSpecView::Single(class) => flat_grants(class.grants),
        ClassSpecView::Multi(classes) => flat_classes(classes),
    }
}

/// Everything a character is granted, flattened: the class contribution
/// first, the race contribution after it.
pub open spec fn flat_character(c: CharacterView) -> Seq<GrantView> {
    flat_class_spec(c.spec.assets.class) + flat_grants(c.spec.assets.race.grants)
}

/// Whether a grant owns nested grants: a trait, a subrace, a subclass, or an
/// improvement taken as a feat.
pub open spec fn is_composite(g: GrantView) -> bool {
    match g {
        GrantView::Trait { .. } => true,
        GrantView::SubRace { .. } => true,
        GrantView::SubClass { .. } => true,
        GrantView::ASI(asi) => asi matches AsiView::Feat { .. },
        _ => false,
    }
}

/// The nested grants a composite grant owns; a leaf owns none.
pub open spec fn grant_children(g: GrantView) -> Seq<GrantView> {
    match g {
        GrantView::Trait { id: _, grants } => grants,
        GrantView::SubRace { id: _, grants } => grants,
        GrantView::SubClass { id: _, grants } => grants,
        GrantView::ASI(asi) => match asi {
            AsiView::Feat { id: _, grants } => grants,
            AsiView::Ability(_, _) => Seq::empty(),
        },
        _ => Seq::empty(),
    }
}

/// The number of grants reachable from one grant, the grant itself included.
pub open spec fn count_grant(g: GrantView) -> nat
    decreases g,
{
    match g {
        GrantView::Trait { id: _, grants } => count_grants(grants) + 1,
        GrantView::SubRace { id: _, grants } => count_grants(grants) + 1,
        GrantView::SubClass { id: _, grants } => count_grants(grants) + 1,
        GrantView::ASI(asi) => match asi {
            AsiView::Feat { id: _, grants } => count_grants(grants) + 1,
            AsiView::Ability(_, _) => 1,
        },
        _ => 1,
    }
}

/// The number of grants reachable from a grant list.
pub open spec fn count_grants(s: Seq<GrantView>) -> nat
    decreases s,
{
    if s.len() == 0 {
        0
    } else {
        count_grants(s.drop_last()) + count_grant(s.last())
    }
}

/// Flattening a composite grant yields the flattening of its children, in
/// the child list's order, with the composite itself appended last.
pub proof fn lemma_flatten_composite(g: GrantView)
    requires
        is_composite(g),
    ensures
        flat_grant(g) == flat_grants(grant_children(g)).push(g),
{
}

/// Flattening a leaf grant yields the one-element sequence of the grant itself.
pub proof fn lemma_flatten_leaf(g: GrantView)
    requires
        !is_composite(g),
    ensures
        flat_grant(g) =~= seq![g],
{
}

/// The flattening of a grant holds every reachable grant, composites
/// included: its length is the number of reachable grants.
pub proof fn lemma_flatten_count(g: GrantView)
    ensures
        flat_grant(g).len() == count_grant(g),
    decreases g,
{
    match g {
        GrantView::Trait { id: _, grants } => lemma_flatten_count_seq(grants),
        GrantView::SubRace { id: _, grants } => lemma_flatten_count_seq(grants),
        GrantView::SubClass { id: _, grants } => lemma_flatten_count_seq(grants),
        GrantView::ASI(asi) => match asi {
            AsiView::Feat { id: _, grants } => lemma_flatten_count_seq(grants),
            AsiView::Ability(_, _) => (),
        },
        _ => (),
    }
}

/// The flattening of a grant list holds every grant reachable from it.
pub proof fn lemma_flatten_count_seq(s: Seq<GrantView>)
    ensures
        flat_grants(s).len() == count_grants(s),
    decreases s,
{
    if s.len() > 0 {
        lemma_flatten_count_seq(s.drop_last());
        lemma_flatten_count(s.last());
    }
}

// ---------------------------------------------------------------------------
// Small lemmas about the view and flattening functions.
// ---------------------------------------------------------------------------

/// Viewing a list that grew by one grant grows the view by that grant's view.
pub proof fn lemma_grants_view_push(s: Seq<CharacterAssetGrant>, g: CharacterAssetGrant)
    ensures
        grants_view(s.push(g)) == grants_view(s).push(grant_view(g)),
{
    assert(s.push(g).drop_last() =~= s);
}

/// Viewing a class list that grew by one class grows the view by that class's view.
pub proof fn lemma_classes_view_push(s: Seq<CharacterClass>, c: CharacterClass)
    ensures
        classes_view(s.push(c)) == classes_view(s).push(c@),
{
    assert(s.push(c).drop_last() =~= s);
}

/// The view of a grant list keeps its length and maps each element.
pub proof fn lemma_grants_view_index(s: Seq<CharacterAssetGrant>)
    ensures
        grants_view(s).len() == s.len(),
        forall|i: int| 0 <= i < s.len() ==> grants_view(s)[i] == grant_view(s[i]),
    decreases s.len(),
{
    if s.len() > 0 {
        lemma_grants_view_index(s.drop_last());
    }
}

/// Flattening a list that grew by one grant appends that grant's flattening.
pub proof fn lemma_flat_grants_push(s: Seq<GrantView>, g: GrantView)
    ensures
        flat_grants(s.push(g)) == flat_grants(s) + flat_grant(g),
{
    assert(s.push(g).drop_last() =~= s);
}

/// Flattening a class list that grew by one class appends that class's flattening.
pub proof fn lemma_flat_classes_push(s: Seq<ClassView>, c: ClassView)
    ensures
        flat_classes(s.push(c)) == flat_classes(s) + flat_grants(c.grants),
{
    assert(s.push(c).drop_last() =~= s);
}

/// Viewing distributes over concatenation of grant lists.
pub proof fn lemma_grants_view_concat(a: Seq<CharacterAssetGrant>, b: Seq<CharacterAssetGrant>)
    ensures
        grants_view(a + b) == grants_view(a) + grants_view(b),
    decreases b.len(),
{
    if b.len() == 0 {
        assert(a + b =~= a);
        assert(grants_view(a) + grants_view(b) =~= grants_view(a));
    } else {
        lemma_grants_view_concat(a, b.drop_last());
        assert((a + b).drop_last() =~= a + b.drop_last());
        assert((a + b).last() == b.last());
        assert(grants_view(a) + grants_view(b.drop_last()).push(grant_view(b.last()))
            =~= (grants_view(a) + grants_view(b.drop_last())).push(grant_view(b.last())));
    }
}

// ---------------------------------------------------------------------------
// Cloning.  The clone of a grant carries the same view.
// ---------------------------------------------------------------------------

impl Clone for CharacterAssetGrant {
    /// The clone is the same grant tree, content for content.
    fn clone(&self) -> (r: Self)
        ensures
            r@ == self@,
        decreases self,
    {
        match self {
            CharacterAssetGrant::Proficiency { id } => CharacterAssetGrant::Proficiency {
                id: id.clone(),
            },
            CharacterAssetGrant::Language { id } => CharacterAssetGrant::Language {
                id: id.clone(),
            },
            CharacterAssetGrant::Feature { id } => CharacterAssetGrant::Feature { id: id.clone() },
            CharacterAssetGrant::Spell { id } => CharacterAssetGrant::Spell { id: id.clone() },
            CharacterAssetGrant::Size { id } => CharacterAssetGrant::Size { id: id.clone() },
            CharacterAssetGrant::Trait { id, grants } => CharacterAssetGrant::Trait {
                id: id.clone(),
                grants: clone_grants(grants),
            },
            CharacterAssetGrant::SubRace { id, grants } => CharacterAssetGrant::SubRace {
                id: id.clone(),
                grants: clone_grants(grants),
            },
            CharacterAssetGrant::SubClass { id, grants } => CharacterAssetGrant::SubClass {
                id: id.clone(),
                grants: clone_grants(grants),
            },
            CharacterAssetGrant::ASI(asi) => CharacterAssetGrant::ASI(asi.clone()),
            CharacterAssetGrant::Advantage { id } => CharacterAssetGrant::Advantage {
                id: id.clone(),
            },
            CharacterAssetGrant::Disadvantage { id } => CharacterAssetGrant::Disadvantage {
                id: id.clone(),
            },
            CharacterAssetGrant::AbilityScore { id, add } => CharacterAssetGrant::AbilityScore {
                id: id.clone(),
                add: *add,
            },
        }
    }
}

impl Clone for ASI {
    /// The clone is the same improvement, content for content.
    fn clone(&self) -> (r: Self)
        ensures
            r@ == self@,
        decreases self,
    {
        match self {
            ASI::Ability(first, second) => ASI::Ability(
                first.clone(),
                match second {
                    Some(s) => Some(s.clone()),
                    None => None,
                },
            ),
            ASI::Feat { id, grants } => ASI::Feat { id: id.clone(), grants: clone_grants(grants) },
        }
    }
}

/// Copies a grant list entry by entry; the copy carries the same view.
fn clone_grants(v: &Vec<CharacterAssetGrant>) -> (r: Vec<CharacterAssetGrant>)
    ensures
        grants_view(r@) == grants_view(v@),
    decreases v,
{
    let mut r: Vec<CharacterAssetGrant> = Vec::new();
    let mut i: usize = 0;
    while i < v.len()
        invariant
            i <= v.len(),
            grants_view(r@) == grants_view(v@.take(i as int)),
        decreases v.len() - i,
    {
        let g = v[i].clone();
        proof {
            lemma_grants_view_push(r@, g);
            lemma_grants_view_push(v@.take(i as int), v@[i as int]);
            assert(v@.take(i as int).push(v@[i as int]) =~= v@.take(i as int + 1));
        }
        r.push(g);
        i += 1;
    }
    proof {
        assert(v@.take(v@.len() as int) =~= v@);
    }
    r
}

// ---------------------------------------------------------------------------
// Flattening, executable.
// ---------------------------------------------------------------------------

/// To return all the [`CharacterAssetGrant`] of a struct
pub trait GetAllGrants {
    /// Returns all [`CharacterAssetGrant`] for self.
    fn all_grants(&self) -> Vec<CharacterAssetGrant>;
}

/// Flattens every grant of a list, in order, into one sequence.
fn flatten_all(v: &Vec<CharacterAssetGrant>) -> (r: Vec<CharacterAssetGrant>)
    ensures
        grants_view(r@) == flat_grants(grants_view(v@)),
    decreases v,
{
    let mut r: Vec<CharacterAssetGrant> = Vec::new();
    let mut i: usize = 0;
    while i < v.len()
        invariant
            i <= v.len(),
            grants_view(r@) == flat_grants(grants_view(v@.take(i as int))),
        decreases v.len() - i,
    {
        let mut part = v[i].all_grants();
        proof {
            lemma_grants_view_concat(r@, part@);
            lemma_grants_view_push(v@.take(i as int), v@[i as int]);
            assert(v@.take(i as int).push(v@[i as int]) =~= v@.take(i as int + 1));
            lemma_flat_grants_push(grants_view(v@.take(i as int)), grant_view(v@[i as int]));
        }
        r.append(&mut part);
        i += 1;
    }
    proof {
        assert(v@.take(v@.len() as int) =~= v@);
    }
    r
}

impl GetAllGrants for CharacterAssetGrant {
    /// Post-order flattening: the children first, in order, the grant itself last.
    fn all_grants(&self) -> (r: Vec<CharacterAssetGrant>)
        ensures
            grants_view(r@) == flat_grant(self@),
        decreases self,
    {
        match self {
            CharacterAssetGrant::Trait { id: _, grants } => {
                let mut r = flatten_all(grants);
                let own = self.clone();
                proof {
                    lemma_grants_view_push(r@, own);
                }
                r.push(own);
                r
            },
            CharacterAssetGrant::SubRace { id: _, grants } => {
                let mut r = flatten_all(grants);
                let own = self.clone();
                proof {
                    lemma_grants_view_push(r@, own);
                }
                r.push(own);
                r
            },
            CharacterAssetGrant::SubClass { id: _, grants } => {
                let mut r = flatten_all(grants);
                let own = self.clone();
                proof {
                    lemma_grants_view_push(r@, own);
                }
                r.push(own);
                r
            },
            CharacterAssetGrant::ASI(ASI::Feat { id: _, grants }) => {
                let mut r = flatten_all(grants);
                let own = self.clone();
                proof {
                    lemma_grants_view_push(r@, own);
                }
                r.push(own);
                r
            },
            _ => {
                let mut r: Vec<CharacterAssetGrant> = Vec::new();
                let own = self.clone();
                proof {
                    lemma_grants_view_push(r@, own);
                }
                r.push(own);
                r
            },
        }
    }
}

impl GetAllGrants for Character {
    /// The class contribution flattened first, the race contribution after it.
    fn all_grants(&self) -> (r: Vec<CharacterAssetGrant>)
        ensures
            grants_view(r@) == flat_character(self@),
    {
        let mut grants: Vec<CharacterAssetGrant> = match &self.spec.assets.class {
            CharacterClassSpec::Single(class) => flatten_all(&class.grants),
            CharacterClassSpec::Multi(classes) => {
                let mut acc: Vec<CharacterAssetGrant> = Vec::new();
                let mut j: usize = 0;
                while j < classes.len()
                    invariant
                        j <= classes.len(),
                        grants_view(acc@) == flat_classes(classes_view(classes@.take(j as int))),
                    decreases classes.len() - j,
                {
                    let mut part = flatten_all(&classes[j].grants);
                    proof {
                        lemma_grants_view_concat(acc@, part@);
                        lemma_classes_view_push(classes@.take(j as int), classes@[j as int]);
                        assert(classes@.take(j as int).push(classes@[j as int]) =~= classes@.take(
                            j as int + 1,
                        ));
                        lemma_flat_classes_push(
                            classes_view(classes@.take(j as int)),
                            classes@[j as int]@,
                        );
                    }
                    acc.append(&mut part);
                    j += 1;
                }
                proof {
                    assert(classes@.take(classes@.len() as int) =~= classes@);
                }
                acc
            },
        };
        let mut race_grants = flatten_all(&self.spec.assets.race.grants);
        proof {
            lemma_grants_view_concat(grants@, race_grants@);
        }
        grants.append(&mut race_grants);
        grants
    }
}

// ---------------------------------------------------------------------------
// Level.
// ---------------------------------------------------------------------------

/// The sum of the levels of a class list.
pub open spec fn sum_levels(s: Seq<ClassView>) -> int
    decreases s.len(),
{
    if s.len() == 0 {
        0
    } else {
        sum_levels(s.drop_last()) + s.last().level
    }
}

/// The level of a class specification: the single class's level, or the sum
/// of every class's level.
pub open spec fn spec_level(cs: ClassSpecView) -> int {
    match cs {
        ClassSpecView::Single(class) => class.level,
        ClassSpecView::Multi(classes) => sum_levels(classes),
    }
}

/// Whether every prefix sum of the class levels stays inside `i8`, so that
/// the running total can be carried in the same type the levels have.
pub open spec fn levels_in_range(s: Seq<ClassView>) -> bool {
    forall|j: int| 0 <= j <= s.len() ==> i8::MIN <= #[trigger] sum_levels(s.take(j)) <= i8::MAX
}

/// Whether the level of a class specification can be computed in `i8`:
/// a single class always can, a class list must keep every prefix sum in
/// range.
pub open spec fn level_ok(cs: ClassSpecView) -> bool {
    match cs {
        ClassSpecView::Single(_) => true,
        ClassSpecView::Multi(classes) => levels_in_range(classes),
    }
}

impl Character {
    /// Returns a Character's level
    pub fn level(&self) -> (r: i8)
        requires
            level_ok(self@.spec.assets.class),
        ensures
            r as int == spec_level(self@.spec.assets.class),
    {
        match &self.spec.assets.class {
            CharacterClassSpec::Single(class) => class.level,
            CharacterClassSpec::Multi(classes) => {
                let ghost cs = classes_view(classes@);
                let mut acc: i8 = 0;
                let mut j: usize = 0;
                proof {
                    lemma_classes_view_len_index(classes@);
                    assert(cs.take(0) =~= Seq::<ClassView>::empty());
                }
                while j < classes.len()
                    invariant
                        j <= classes.len(),
                        cs == classes_view(classes@),
                        cs.len() == classes@.len(),
                        levels_in_range(cs),
                        acc as int == sum_levels(cs.take(j as int)),
                    decreases classes.len() - j,
                {
                    proof {
                        lemma_classes_view_len_index(classes@);
                        assert(cs.take(j as int + 1).drop_last() =~= cs.take(j as int));
                        assert(cs.take(j as int + 1).last() == cs[j as int]);
                        assert(sum_levels(cs.take(j as int + 1)) == sum_levels(cs.take(j as int))
                            + cs[j as int].level);
                        assert(i8::MIN <= sum_levels(cs.take(j as int + 1)) <= i8::MAX);
                    }
                    acc = acc + classes[j].level;
                    j += 1;
                }
                proof {
                    assert(cs.take(cs.len() as int) =~= cs);
                }
                acc
            },
        }
    }
}

/// The view of a class list keeps its length and maps each element.
pub proof fn lemma_classes_view_len_index(s: Seq<CharacterClass>)
    ensures
        classes_view(s).len() == s.len(),
        forall|i: int| 0 <= i < s.len() ==> classes_view(s)[i] == s[i]@,
    decreases s.len(),
{
    if s.len() > 0 {
        lemma_classes_view_len_index(s.drop_last());
    }
}

// ---------------------------------------------------------------------------
// Fetching definitions.
// ---------------------------------------------------------------------------

/// Trait to fetch the Asset definition from the api
pub trait FetchDefFromAPI<T> {
    /// Error
    type Err;

    /// Fetches this Asset's definition from the api
    fn fetch_def(&self) -> Result<T, Self::Err>;
}

impl FetchDefFromAPI<Asset> for CharacterAssetGrant {
    type Err = ();

    /// A proficiency grant resolves to its proficiency asset; every other
    /// grant has no definition to fetch.
    fn fetch_def(&self) -> (r: Result<Asset, ()>)
        ensures
            match self@ {
                GrantView::Proficiency { id } => r matches Ok(Asset::Proficiency { metadata })
                    && metadata.deep_view() == crate::api::spec_default_meta(id),
                _ => r is Err,
            },
    {
        match self {
            CharacterAssetGrant::Proficiency { id } => {
                match fetch_asset_definition("proficiency", id.as_str()) {
                    Ok(asset) => Ok(asset),
                    Err(_) => Err(()),
                }
            },
            _ => Err(()),
        }
    }
}

} // verus!
