//! Card definitions: what a card is, the catalogue's pools, and the rules
//! a card may carry.
use vstd::prelude::*;

use crate::effect::{Effect, Event};
use crate::ids::{CardId, CardInstanceId, CreatureId, LocKey};
use crate::rules::{Decision, DecisionQuery, RuleCtx};
use crate::registry::DefRegistry;
use crate::registry_static::StaticRegistry;
use crate::state::{CardCosts, GameState};
use curses::{
    curse_event_effects, curse_on_event, curse_table, enthralled_decide, enthralled_decision, enthralled_play,
    lemma_curse_ids, normality_decide, register_curse_cards, spore_mind_play, third_card_decision,
};
use defect::register_defect_cards;
use ironclad::{
    giant_rock_spec, ironclad_play, ironclad_play_effects, ironclad_play_fits, ironclad_table, lemma_ironclad_ids,
    register_ironclad_cards,
};
use silent::register_silent_cards;
use tokens::{lemma_token_ids, register_token_cards, sloth_decide, token_play, token_play_effects, token_table};

pub mod curses;
pub mod defect;
pub mod helpers;
pub mod ironclad;
pub mod silent;
pub mod tokens;

verus! {

#[derive(Clone, Copy, Debug, PartialEq, Eq, Structural)]
pub enum CardPoolId {
    Ironclad,
    Silent,
    Regent,
    Necrobinder,
    Defect,
    Colorless,
    Curse,
    Deprecated,
    Event,
    Quest,
    Status,
    Token,
}

#[derive(Clone, Copy, Debug, PartialEq, Eq, Structural)]
pub enum CardType {
    Attack,
    Skill,
    Power,
    Status,
    Curse,
    Quest,
}

#[derive(Clone, Copy, Debug, PartialEq, Eq, Structural)]
pub enum CardRarity {
    Basic,
    Common,
    Uncommon,
    Rare,
    Ancient,
    Event,
    Token,
    Status,
    Curse,
    Quest,
}

#[derive(Clone, Copy, Debug, PartialEq, Eq, Structural)]
pub enum TargetType {
    Untargeted,
    Enemy,
    AllEnemies,
    RandomEnemy,
    SelfTarget,
    AnyPlayer,
    AnyAlly,
    AllAllies,
    AnyCreature,
    TargetedNoCreature,
    Osty,
}

#[derive(Clone, Copy, Debug, PartialEq, Eq, Structural)]
pub enum CardKeyword {
    Exhaust,
    Innate,
    Unplayable,
    Ethereal,
    Temporary,
    PurgeOnUse,
    FreeThisTurn,
    Retain,
    Sly,
    Eternal,
}

#[derive(Clone, Copy, Debug, PartialEq, Eq, Structural)]
pub enum CardTag {
    Strike,
    Defend,
    Minion,
    OstyAttack,
    Shiv,
}

/// What playing a card does: nothing, or the body written for a catalogue card.
#[derive(Clone, Copy, Debug, PartialEq, Eq, Structural)]
pub enum CardPlay {
    NoEffect,
    Body(CardId),
}

/// A reaction of a card to an event, while it is in play.
#[derive(Clone, Copy, Debug, PartialEq, Eq, Structural)]
pub enum CardEventRule {
    BadLuck,
    Decay,
    Doubt,
    Regret,
    Shame,
}

/// A card's say in whether something may happen.
#[derive(Clone, Copy, Debug, PartialEq, Eq, Structural)]
pub enum CardDecideRule {
    Normality,
    Enthralled,
    Sloth,
}

/// The rules a card carries besides its play body.
#[derive(Clone, Copy, Debug, PartialEq, Eq, Structural)]
pub struct CardRules {
    pub on_event: Option<CardEventRule>,
    pub decide: Option<CardDecideRule>,
}

impl Default for CardRules {
    fn default() -> (r: CardRules)
        ensures
            r == (CardRules { on_event: None, decide: None }),
    {
        CardRules { on_event: None, decide: None }
    }
}

/// One card definition.
#[derive(Clone, Debug)]
pub struct CardDef {
    pub id: CardId,
    pub loc_key: LocKey,
    pub pool: CardPoolId,
    pub card_type: CardType,
    pub rarity: CardRarity,
    pub target: TargetType,
    pub base_costs: CardCosts,
    pub upgraded_costs: Option<CardCosts>,
    pub keywords: Vec<CardKeyword>,
    pub upgraded_keywords: Vec<CardKeyword>,
    pub tags: Vec<CardTag>,
    pub can_generate_in_combat: bool,
    pub play: CardPlay,
    pub rules: CardRules,
}

impl CardDef {
    /// The costs of the card, upgraded or not.
    pub open spec fn spec_costs_for(&self, upgraded: bool) -> CardCosts {
        if upgraded {
            match self.upgraded_costs {
                Some(c) => c,
                None => self.base_costs,
            }
        } else {
            self.base_costs
        }
    }

    pub fn costs_for(&self, upgraded: bool) -> (r: CardCosts)
        ensures
            r == self.spec_costs_for(upgraded),
    {
        if upgraded {
            self.upgraded_costs.unwrap_or(self.base_costs)
        } else {
            self.base_costs
        }
    }

    /// The card has the keyword, upgraded or not.
    pub open spec fn spec_has_keyword(&self, upgraded: bool, keyword: CardKeyword) -> bool {
        self.keywords@.contains(keyword) || (upgraded && self.upgraded_keywords@.contains(keyword))
    }

    pub fn has_keyword(&self, upgraded: bool, keyword: CardKeyword) -> (r: bool)
        ensures
            r == self.spec_has_keyword(upgraded, keyword),
    {
        keyword_in(&self.keywords, keyword) || (upgraded && keyword_in(&self.upgraded_keywords, keyword))
    }

    pub fn has_tag(&self, tag: CardTag) -> (r: bool)
        ensures
            r == self.tags@.contains(tag),
    {
        let n = self.tags.len();
        for i in 0..n
            invariant
                n == self.tags@.len(),
                forall|j: int| 0 <= j < i ==> self.tags@[j] != tag,
        {
            if self.tags[i] == tag {
                return true;
            }
        }
        false
    }
}

/// The keyword lists the catalogue uses.
#[derive(Clone, Copy, Debug, PartialEq, Eq, Structural)]
pub enum KeywordList {
    Empty,
    Exhaust,
    Innate,
    Eternal,
    Retain,
    Unplayable,
    UnplayableEternal,
    EtherealUnplayable,
    EtherealUnplayableEternal,
    InnateUnplayable,
    InnateEtherealUnplayableEternal,
    RetainUnplayable,
    ExhaustEthereal,
    ExhaustRetain,
}

impl KeywordList {
    pub open spec fn spec_keywords(self) -> Seq<CardKeyword> {
        match self {
            KeywordList::Empty => seq![],
            KeywordList::Exhaust => seq![CardKeyword::Exhaust],
            KeywordList::Innate => seq![CardKeyword::Innate],
            KeywordList::Eternal => seq![CardKeyword::Eternal],
            KeywordList::Retain => seq![CardKeyword::Retain],
            KeywordList::Unplayable => seq![CardKeyword::Unplayable],
            KeywordList::UnplayableEternal => seq![CardKeyword::Unplayable, CardKeyword::Eternal],
            KeywordList::EtherealUnplayable => seq![CardKeyword::Ethereal, CardKeyword::Unplayable],
            KeywordList::EtherealUnplayableEternal => seq![CardKeyword::Ethereal, CardKeyword::Unplayable, CardKeyword::Eternal],
            KeywordList::InnateUnplayable => seq![CardKeyword::Innate, CardKeyword::Unplayable],
            KeywordList::InnateEtherealUnplayableEternal => seq![CardKeyword::Innate, CardKeyword::Ethereal, CardKeyword::Unplayable, CardKeyword::Eternal],
            KeywordList::RetainUnplayable => seq![CardKeyword::Retain, CardKeyword::Unplayable],
            KeywordList::ExhaustEthereal => seq![CardKeyword::Exhaust, CardKeyword::Ethereal],
            KeywordList::ExhaustRetain => seq![CardKeyword::Exhaust, CardKeyword::Retain],
        }
    }

    pub fn to_vec(self) -> (r: Vec<CardKeyword>)
        ensures
            r@ == self.spec_keywords(),
    {
        match self {
            KeywordList::Empty => vec![],
            KeywordList::Exhaust => vec![CardKeyword::Exhaust],
            KeywordList::Innate => vec![CardKeyword::Innate],
            KeywordList::Eternal => vec![CardKeyword::Eternal],
            KeywordList::Retain => vec![CardKeyword::Retain],
            KeywordList::Unplayable => vec![CardKeyword::Unplayable],
            KeywordList::UnplayableEternal => vec![CardKeyword::Unplayable, CardKeyword::Eternal],
            KeywordList::EtherealUnplayable => vec![CardKeyword::Ethereal, CardKeyword::Unplayable],
            KeywordList::EtherealUnplayableEternal => vec![CardKeyword::Ethereal, CardKeyword::Unplayable, CardKeyword::Eternal],
            KeywordList::InnateUnplayable => vec![CardKeyword::Innate, CardKeyword::Unplayable],
            KeywordList::InnateEtherealUnplayableEternal => vec![CardKeyword::Innate, CardKeyword::Ethereal, CardKeyword::Unplayable, CardKeyword::Eternal],
            KeywordList::RetainUnplayable => vec![CardKeyword::Retain, CardKeyword::Unplayable],
            KeywordList::ExhaustEthereal => vec![CardKeyword::Exhaust, CardKeyword::Ethereal],
            KeywordList::ExhaustRetain => vec![CardKeyword::Exhaust, CardKeyword::Retain],
        }
    }
}

/// The tag lists the catalogue uses.
#[derive(Clone, Copy, Debug, PartialEq, Eq, Structural)]
pub enum TagList {
    Empty,
    Strike,
    Defend,
    Shiv,
    Minion,
    StrikeMinion,
    OstyAttack,
}

impl TagList {
    pub open spec fn spec_tags(self) -> Seq<CardTag> {
        match self {
            TagList::Empty => seq![],
            TagList::Strike => seq![CardTag::Strike],
            TagList::Defend => seq![CardTag::Defend],
            TagList::Shiv => seq![CardTag::Shiv],
            TagList::Minion => seq![CardTag::Minion],
            TagList::StrikeMinion => seq![CardTag::Strike, CardTag::Minion],
            TagList::OstyAttack => seq![CardTag::OstyAttack],
        }
    }

    pub fn to_vec(self) -> (r: Vec<CardTag>)
        ensures
            r@ == self.spec_tags(),
    {
        match self {
            TagList::Empty => vec![],
            TagList::Strike => vec![CardTag::Strike],
            TagList::Defend => vec![CardTag::Defend],
            TagList::Shiv => vec![CardTag::Shiv],
            TagList::Minion => vec![CardTag::Minion],
            TagList::StrikeMinion => vec![CardTag::Strike, CardTag::Minion],
            TagList::OstyAttack => vec![CardTag::OstyAttack],
        }
    }
}

/// One line of the catalogue: a card definition with its keyword and tag
/// lists named.
#[derive(Clone, Copy, Debug)]
pub struct CardSpec {
    pub id: CardId,
    pub loc_key: &'static str,
    pub pool: CardPoolId,
    pub card_type: CardType,
    pub rarity: CardRarity,
    pub target: TargetType,
    pub base_costs: CardCosts,
    pub upgraded_costs: Option<CardCosts>,
    pub keywords: KeywordList,
    pub upgraded_keywords: KeywordList,
    pub tags: TagList,
    pub can_generate_in_combat: bool,
    pub play: CardPlay,
    pub rules: CardRules,
}

impl CardSpec {
    /// `def` is the definition this catalogue line describes.
    pub open spec fn describes(self, def: CardDef) -> bool {
        &&& def.id == self.id
        &&& def.loc_key.key == self.loc_key
        &&& def.pool == self.pool
        &&& def.card_type == self.card_type
        &&& def.rarity == self.rarity
        &&& def.target == self.target
        &&& def.base_costs == self.base_costs
        &&& def.upgraded_costs == self.upgraded_costs
        &&& def.keywords@ == self.keywords.spec_keywords()
        &&& def.upgraded_keywords@ == self.upgraded_keywords.spec_keywords()
        &&& def.tags@ == self.tags.spec_tags()
        &&& def.can_generate_in_combat == self.can_generate_in_combat
        &&& def.play == self.play
        &&& def.rules == self.rules
    }

    pub fn def(self) -> (r: CardDef)
        ensures
            self.describes(r),
    {
        CardDef {
            id: self.id,
            loc_key: LocKey::new(self.loc_key),
            pool: self.pool,
            card_type: self.card_type,
            rarity: self.rarity,
            target: self.target,
            base_costs: self.base_costs,
            upgraded_costs: self.upgraded_costs,
            keywords: self.keywords.to_vec(),
            upgraded_keywords: self.upgraded_keywords.to_vec(),
            tags: self.tags.to_vec(),
            can_generate_in_combat: self.can_generate_in_combat,
            play: self.play,
            rules: self.rules,
        }
    }
}

/// The definitions of a list of catalogue lines, in order.
pub fn defs_of(specs: &Vec<CardSpec>) -> (r: Vec<CardDef>)
    ensures
        r@.len() == specs@.len(),
        forall|i: int| 0 <= i < specs@.len() ==> #[trigger] specs@[i].describes(r@[i]),
{
    let mut out: Vec<CardDef> = Vec::new();
    let n = specs.len();
    for i in 0..n
        invariant
            n == specs@.len(),
            out@.len() == i,
            forall|j: int| 0 <= j < i ==> #[trigger] specs@[j].describes(out@[j]),
    {
        out.push(specs[i].def());
    }
    out
}

/// No line of `specs` has the id `id`.
pub open spec fn id_absent(id: CardId, specs: Seq<CardSpec>) -> bool {
    forall|i: int| 0 <= i < specs.len() ==> #[trigger] specs[i].id != id
}

/// No two lines of `specs` share an id.
pub open spec fn ids_distinct(specs: Seq<CardSpec>) -> bool {
    forall|i: int, j: int| 0 <= i < j < specs.len() ==> #[trigger] specs[i].id != #[trigger] specs[j].id
}

/// No line of `a` shares its id with a line of `b`.
pub open spec fn ids_disjoint(a: Seq<CardSpec>, b: Seq<CardSpec>) -> bool {
    forall|i: int, j: int| 0 <= i < a.len() && 0 <= j < b.len() ==> #[trigger] a[i].id != #[trigger] b[j].id
}

/// Each line of `specs` is described by the definition stored under its id.
pub open spec fn stores_lines(m: Map<CardId, CardDef>, specs: Seq<CardSpec>) -> bool {
    forall|i: int| 0 <= i < specs.len() ==> m.contains_key(specs[i].id) && (#[trigger] specs[i]).describes(m[specs[i].id])
}

/// The ids of the lines, in order.
pub open spec fn ids_of(specs: Seq<CardSpec>) -> Seq<CardId> {
    specs.map_values(|spec: CardSpec| spec.id)
}

/// No line's id is registered yet.
pub open spec fn fresh_lines(m: Map<CardId, CardDef>, specs: Seq<CardSpec>) -> bool {
    forall|i: int| 0 <= i < specs.len() ==> !m.contains_key(#[trigger] specs[i].id)
}

/// Storing a definition under an id no line has keeps every line stored.
pub proof fn lemma_stores_lines_insert(m: Map<CardId, CardDef>, specs: Seq<CardSpec>, key: CardId, def: CardDef)
    requires
        stores_lines(m, specs),
        id_absent(key, specs),
    ensures
        stores_lines(m.insert(key, def), specs),
{
    assert forall|i: int| 0 <= i < specs.len() implies m.insert(key, def).contains_key(specs[i].id)
        && (#[trigger] specs[i]).describes(m.insert(key, def)[specs[i].id]) by {
        assert(specs[i].id != key);
    }
}

/// Registers the definition of each catalogue line, in order. Where no two
/// lines share an id, each line's definition is the one stored under its id;
/// ids no line has keep what they held.
pub fn register_specs(registry: &mut DefRegistry<CardId, CardDef>, specs: &Vec<CardSpec>)
    ensures
        forall|k: CardId| #[trigger] final(registry)@.contains_key(k) <==> (old(registry)@.contains_key(k)
            || exists|i: int| 0 <= i < specs@.len() && specs@[i].id == k),
        ids_distinct(specs@) ==> stores_lines(final(registry)@, specs@),
        forall|k: CardId| old(registry)@.contains_key(k) && id_absent(k, specs@) ==> #[trigger] final(registry)@[k] == old(registry)@[k],
        ids_distinct(specs@) && fresh_lines(old(registry)@, specs@) ==> final(registry).spec_keys() == old(registry).spec_keys() + ids_of(specs@),
{
    let n = specs.len();
    for i in 0..n
        invariant
            n == specs@.len(),
            forall|k: CardId| #[trigger] registry@.contains_key(k) <==> (old(registry)@.contains_key(k)
                || exists|j: int| 0 <= j < i && specs@[j].id == k),
            ids_distinct(specs@) ==> stores_lines(registry@, specs@.subrange(0, i as int)),
            forall|k: CardId| old(registry)@.contains_key(k) && (forall|j: int| 0 <= j < i ==> specs@[j].id != k) ==> #[trigger] registry@[k] == old(registry)@[k],
            ids_distinct(specs@) && fresh_lines(old(registry)@, specs@) ==> registry.spec_keys() == old(registry).spec_keys() + ids_of(specs@.subrange(0, i as int)),
    {
        let ghost before = registry@;
        let ghost keys_before = registry.spec_keys();
        proof {
            if ids_distinct(specs@) && fresh_lines(old(registry)@, specs@) {
                if registry@.contains_key(specs@[i as int].id) {
                    let j = choose|j: int| 0 <= j < i && specs@[j].id == specs@[i as int].id;
                }
            }
        }
        let def = specs[i].def();
        registry.register(def);
        proof {
            assert forall|k: CardId| #[trigger] registry@.contains_key(k) <==> (old(registry)@.contains_key(k)
                || exists|j: int| 0 <= j < i + 1 && specs@[j].id == k) by {
                if k == specs@[i as int].id {
                    assert(0 <= i < i + 1 && specs@[i as int].id == k);
                }
                if exists|j: int| 0 <= j < i + 1 && specs@[j].id == k {
                    let j = choose|j: int| 0 <= j < i + 1 && specs@[j].id == k;
                    if j < i {
                    }
                }
            }
            if ids_distinct(specs@) {
                let done = specs@.subrange(0, i as int);
                let next = specs@.subrange(0, i + 1);
                assert forall|j: int| 0 <= j < next.len() implies registry@.contains_key(next[j].id)
                    && (#[trigger] next[j]).describes(registry@[next[j].id]) by {
                    if j < i {
                        assert(next[j] == done[j]);
                        assert(specs@[j].id != specs@[i as int].id);
                    }
                }
            }
            assert forall|k: CardId| old(registry)@.contains_key(k) && (forall|j: int| 0 <= j < i + 1 ==> specs@[j].id != k) implies #[trigger] registry@[k] == old(registry)@[k] by {
                assert(specs@[i as int].id != k);
            }
            if ids_distinct(specs@) && fresh_lines(old(registry)@, specs@) {
                assert(ids_of(specs@.subrange(0, i + 1)) =~= ids_of(specs@.subrange(0, i as int)).push(specs@[i as int].id));
                assert(registry.spec_keys() =~= old(registry).spec_keys() + ids_of(specs@.subrange(0, i + 1)));
            }
        }
    }
    proof {
        assert(specs@.subrange(0, n as int) == specs@);
    }
}

/// What a card's play body may read.
pub struct CardPlayCtx<'a> {
    pub state: &'a GameState,
    pub registry: &'a StaticRegistry,
    pub paid_energy: i32,
    pub paid_stars: i32,
}

/// Whether the keyword occurs in the list.
pub fn keyword_in(keywords: &Vec<CardKeyword>, keyword: CardKeyword) -> (r: bool)
    ensures
        r == keywords@.contains(keyword),
{
    let n = keywords.len();
    for i in 0..n
        invariant
            n == keywords@.len(),
            forall|j: int| 0 <= j < i ==> keywords@[j] != keyword,
    {
        if keywords[i] == keyword {
            return true;
        }
    }
    false
}

/// Having a keyword before the upgrade implies having it after.
pub proof fn lemma_keywords_survive_upgrade(def: CardDef, keyword: CardKeyword)
    ensures
        def.spec_has_keyword(false, keyword) ==> def.spec_has_keyword(true, keyword),
{
}


/// The ids of the catalogue in registration order: the Ironclad pool, Giant
/// Rock, the Curse pool, the Token pool.
pub open spec fn catalogue_ids() -> Seq<CardId> {
    ids_of(ironclad_table()).push(CardId::GiantRock) + ids_of(curse_table()) + ids_of(token_table())
}

/// No id of the catalogue is registered yet.
pub open spec fn catalogue_fresh(m: Map<CardId, CardDef>) -> bool {
    &&& !m.contains_key(CardId::GiantRock)
    &&& fresh_lines(m, ironclad_table())
    &&& fresh_lines(m, curse_table())
    &&& fresh_lines(m, token_table())
}

/// No two pools of the catalogue share an id.
pub proof fn lemma_pools_disjoint()
    ensures
        ids_disjoint(ironclad_table(), curse_table()),
        ids_disjoint(ironclad_table(), token_table()),
        ids_disjoint(curse_table(), token_table()),
{
}

/// Registers every pool of the catalogue: each line's definition is stored
/// under its id, Giant Rock's too, and other ids keep what they held.
pub fn register_all_cards(registry: &mut DefRegistry<CardId, CardDef>)
    ensures
        forall|k: CardId| #[trigger] final(registry)@.contains_key(k) <==> (old(registry)@.contains_key(k)
            || k == CardId::GiantRock
            || (exists|i: int| 0 <= i < ironclad_table().len() && ironclad_table()[i].id == k)
            || (exists|i: int| 0 <= i < curse_table().len() && curse_table()[i].id == k)
            || (exists|i: int| 0 <= i < token_table().len() && token_table()[i].id == k)),
        stores_lines(final(registry)@, ironclad_table()),
        stores_lines(final(registry)@, curse_table()),
        stores_lines(final(registry)@, token_table()),
        giant_rock_spec().describes(final(registry)@[CardId::GiantRock]),
        forall|k: CardId| old(registry)@.contains_key(k) && k != CardId::GiantRock && id_absent(k, ironclad_table())
            && id_absent(k, curse_table()) && id_absent(k, token_table()) ==> #[trigger] final(registry)@[k] == old(registry)@[k],
        catalogue_fresh(old(registry)@) ==> final(registry).spec_keys() == old(registry).spec_keys() + catalogue_ids(),
{
    proof {
        lemma_pools_disjoint();
        lemma_ironclad_ids();
        lemma_curse_ids();
    }
    proof {
        lemma_token_ids();
    }
    register_ironclad_cards(registry);
    let ghost m1 = registry@;
    let ghost k1 = registry.spec_keys();
    proof {
        if catalogue_fresh(old(registry)@) {
            assert forall|i: int| 0 <= i < curse_table().len() implies !m1.contains_key(#[trigger] curse_table()[i].id) by {
                let k = curse_table()[i].id;
                assert(k != CardId::GiantRock);
                if exists|j: int| 0 <= j < ironclad_table().len() && ironclad_table()[j].id == k {
                    let j = choose|j: int| 0 <= j < ironclad_table().len() && ironclad_table()[j].id == k;
                    assert(ironclad_table()[j].id != curse_table()[i].id);
                }
            }
        }
    }
    register_curse_cards(registry);
    let ghost m2 = registry@;
    let ghost k2 = registry.spec_keys();
    proof {
        if catalogue_fresh(old(registry)@) {
            assert forall|i: int| 0 <= i < token_table().len() implies !m2.contains_key(#[trigger] token_table()[i].id) by {
                let k = token_table()[i].id;
                assert(k != CardId::GiantRock);
                if exists|j: int| 0 <= j < ironclad_table().len() && ironclad_table()[j].id == k {
                    let j = choose|j: int| 0 <= j < ironclad_table().len() && ironclad_table()[j].id == k;
                    assert(ironclad_table()[j].id != token_table()[i].id);
                }
                if exists|j: int| 0 <= j < curse_table().len() && curse_table()[j].id == k {
                    let j = choose|j: int| 0 <= j < curse_table().len() && curse_table()[j].id == k;
                    assert(curse_table()[j].id != token_table()[i].id);
                }
            }
        }
    }
    register_defect_cards(registry);
    register_silent_cards(registry);
    register_token_cards(registry);
    proof {
        if catalogue_fresh(old(registry)@) {
            assert(registry.spec_keys() =~= old(registry).spec_keys() + catalogue_ids());
        }
    }
    proof {
        assert forall|i: int| 0 <= i < ironclad_table().len() implies registry@.contains_key(ironclad_table()[i].id)
            && (#[trigger] ironclad_table()[i]).describes(registry@[ironclad_table()[i].id]) by {
            let k = ironclad_table()[i].id;
            assert(m1.contains_key(k) && ironclad_table()[i].describes(m1[k]));
            assert forall|j: int| 0 <= j < curse_table().len() implies #[trigger] curse_table()[j].id != k by {
                assert(ironclad_table()[i].id != curse_table()[j].id);
            }
            assert forall|j: int| 0 <= j < token_table().len() implies #[trigger] token_table()[j].id != k by {
                assert(ironclad_table()[i].id != token_table()[j].id);
            }
            assert(k != CardId::GiantRock);
            assert(m2[k] == m1[k]);
        }
        assert forall|i: int| 0 <= i < curse_table().len() implies registry@.contains_key(curse_table()[i].id)
            && (#[trigger] curse_table()[i]).describes(registry@[curse_table()[i].id]) by {
            let k = curse_table()[i].id;
            assert(m2.contains_key(k) && curse_table()[i].describes(m2[k]));
            assert forall|j: int| 0 <= j < token_table().len() implies #[trigger] token_table()[j].id != k by {
                assert(curse_table()[i].id != token_table()[j].id);
            }
            assert(k != CardId::GiantRock);
        }
    }
}

/// What a card's play body yields.
pub open spec fn card_play_effects(ctx: &CardPlayCtx, play: CardPlay, card: CardInstanceId, target: Option<CreatureId>) -> Seq<Effect> {
    match play {
        CardPlay::NoEffect => Seq::empty(),
        CardPlay::Body(id) => match id {
            CardId::Fuel | CardId::Luminesce | CardId::MinionDiveBomb | CardId::MinionSacrifice | CardId::MinionStrike
            | CardId::Shiv | CardId::Soul | CardId::SovereignBlade | CardId::SweepingGaze => token_play_effects(ctx, id, card, target),
            CardId::Enthralled | CardId::SporeMind => Seq::empty(),
            _ => ironclad_play_effects(ctx, id, card, target),
        },
    }
}

/// The play body's arithmetic stays in range: only some Ironclad bodies
/// work out sums and products that could overflow.
pub open spec fn play_fits(ctx: &CardPlayCtx, play: CardPlay, card: CardInstanceId, target: Option<CreatureId>) -> bool {
    match play {
        CardPlay::NoEffect => true,
        CardPlay::Body(id) => match id {
            CardId::Fuel | CardId::Luminesce | CardId::MinionDiveBomb | CardId::MinionSacrifice | CardId::MinionStrike
            | CardId::Shiv | CardId::Soul | CardId::SovereignBlade | CardId::SweepingGaze | CardId::Enthralled
            | CardId::SporeMind => true,
            _ => ironclad_play_fits(ctx, id, card, target),
        },
    }
}

/// Runs a card's play body.
pub fn play_card_body(ctx: &CardPlayCtx<'_>, play: CardPlay, card: CardInstanceId, target: Option<CreatureId>) -> (r: Vec<Effect>)
    requires
        play_fits(ctx, play, card, target),
    ensures
        r@ == card_play_effects(ctx, play, card, target),
{
    match play {
        CardPlay::NoEffect => Vec::new(),
        CardPlay::Body(id) => match id {
            CardId::Fuel | CardId::Luminesce | CardId::MinionDiveBomb | CardId::MinionSacrifice | CardId::MinionStrike
            | CardId::Shiv | CardId::Soul | CardId::SovereignBlade | CardId::SweepingGaze => token_play(ctx, id, card, target),
            CardId::Enthralled => enthralled_play(ctx, card, target),
            CardId::SporeMind => spore_mind_play(ctx, card, target),
            _ => ironclad_play(ctx, id, card, target),
        },
    }
}

/// Runs a card's reaction to an event.
pub fn card_on_event(ctx: &RuleCtx<'_>, rule: CardEventRule, card: CardInstanceId, event: &Event) -> (r: Vec<Effect>)
    ensures
        r@ == curse_event_effects(ctx.state, rule, card, *event),
{
    curse_on_event(ctx, rule, card, event)
}

/// A card's answer to a question.
pub open spec fn card_decision(ctx: &RuleCtx, rule: CardDecideRule, card: CardInstanceId, query: DecisionQuery) -> Decision {
    match rule {
        CardDecideRule::Normality => third_card_decision(ctx, card, query),
        CardDecideRule::Sloth => third_card_decision(ctx, card, query),
        CardDecideRule::Enthralled => enthralled_decision(ctx, card, query),
    }
}

/// Asks a card's rule.
pub fn card_decide(ctx: &RuleCtx<'_>, rule: CardDecideRule, card: CardInstanceId, query: &DecisionQuery) -> (r: Decision)
    ensures
        r == card_decision(ctx, rule, card, *query),
{
    match rule {
        CardDecideRule::Normality => normality_decide(ctx, card, query),
        CardDecideRule::Sloth => sloth_decide(ctx, card, query),
        CardDecideRule::Enthralled => enthralled_decide(ctx, card, query),
    }
}

} // verus!
