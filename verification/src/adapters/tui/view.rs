//! What the interface shows of a combat: creatures, powers and cards, as text.
use vstd::prelude::*;

use crate::assets::localization::{card_type_label, keyword_label, Language, Localization};
use crate::content::card_text::{
    card_display_costs, card_keywords, card_lines, card_text_fits, describe_card, display_costs, lines_view,
    text_fits, text_ready, CardTextCtx, CardTextLine, CardTextScope,
};
use crate::content::cards::TargetType;
use crate::content::monsters::{monster_intent, nibbit_intent_of, nibbit_move, MonsterBehavior, MonsterIntent};
use crate::engine::Engine;
use crate::ids::{CardInstanceId, CreatureId, PowerId};
use crate::log::{card_instance_text, creature_text, push_card_instance, push_creature};
use crate::pipeline::{check_damage_rules_fit, damage_rules_fit, pipeline_decision, should_remove_creature_after_death};
use crate::registry_static::StaticRegistry;
use crate::rules::{Decision, DecisionQuery, DecisionQueryKind, RuleCtx};
use crate::state::{CardCost, CardCosts, CardState, CombatPhase, CombatState, Creature, GameState, PileKind, Side};
use crate::text::{append_str, int_text, owned, push_int};

verus! {

// ---------------------------------------------------------------------------
// Models
// ---------------------------------------------------------------------------

/// What a creature view shows: label, HP, max HP, block, intent, powers, alive.
pub type CreatureModel = (Seq<char>, i32, i32, i32, Seq<char>, Seq<(Seq<char>, i32)>, bool);

/// What a card view shows: label, type, cost text, costs, target, keywords,
/// description, and the description against each preview target.
pub type CardModel = (
    Seq<char>,
    Seq<char>,
    Seq<char>,
    CardCosts,
    TargetType,
    Seq<Seq<char>>,
    Seq<Seq<char>>,
    Seq<Seq<Seq<char>>>,
);

pub open spec fn strings_view(v: Seq<String>) -> Seq<Seq<char>> {
    v.map_values(|s: String| s@)
}

/// A power on a creature, as shown.
#[derive(Clone, Debug)]
pub struct PowerView {
    pub label: String,
    pub amount: i32,
}

impl View for PowerView {
    type V = (Seq<char>, i32);

    open spec fn view(&self) -> (Seq<char>, i32) {
        (self.label@, self.amount)
    }
}

pub open spec fn power_views_view(v: Seq<PowerView>) -> Seq<(Seq<char>, i32)> {
    v.map_values(|p: PowerView| p@)
}

/// A creature, as shown.
#[derive(Clone, Debug)]
pub struct CreatureView {
    pub label: String,
    pub hp: i32,
    pub max_hp: i32,
    pub block: i32,
    pub intent: String,
    pub powers: Vec<PowerView>,
    pub alive: bool,
}

impl View for CreatureView {
    type V = CreatureModel;

    open spec fn view(&self) -> CreatureModel {
        (self.label@, self.hp, self.max_hp, self.block, self.intent@, power_views_view(self.powers@), self.alive)
    }
}

pub open spec fn creature_views_view(v: Seq<CreatureView>) -> Seq<CreatureModel> {
    v.map_values(|c: CreatureView| c@)
}

/// A card, as shown.
#[derive(Clone, Debug)]
pub struct CardView {
    pub label: String,
    pub card_type: String,
    pub cost: String,
    pub costs: CardCosts,
    pub target: TargetType,
    pub keywords: Vec<String>,
    pub description: Vec<String>,
    pub target_descriptions: Vec<Vec<String>>,
}

impl View for CardView {
    type V = CardModel;

    open spec fn view(&self) -> CardModel {
        (
            self.label@,
            self.card_type@,
            self.cost@,
            self.costs,
            self.target,
            strings_view(self.keywords@),
            strings_view(self.description@),
            self.target_descriptions@.map_values(|d: Vec<String>| strings_view(d@)),
        )
    }
}

pub open spec fn card_views_view(v: Seq<CardView>) -> Seq<CardModel> {
    v.map_values(|c: CardView| c@)
}

/// Everything the interface shows of a combat.
#[derive(Clone, Debug)]
pub struct CombatSnapshot {
    pub seed: u64,
    pub phase: CombatPhase,
    pub player: CreatureView,
    pub energy: i32,
    pub max_energy: i32,
    pub stars: i32,
    pub draw_pile: Vec<CardView>,
    pub discard_pile: Vec<CardView>,
    pub exhaust_pile: Vec<CardView>,
    pub monsters: Vec<CreatureView>,
    pub hand: Vec<CardView>,
}

// ---------------------------------------------------------------------------
// What is shown
// ---------------------------------------------------------------------------

/// The card's text, worked out against the target, keeps its arithmetic in range.
pub open spec fn text_fits_against(state: &GameState, registry: &StaticRegistry, card: CardInstanceId, target: Option<CreatureId>) -> bool {
    text_fits(&CardTextCtx { state, registry, target, scope: CardTextScope::Pile }, card)
}

/// The combat's text can be worked out: the damage rules have room for
/// their arithmetic, and every card's text, against any target, keeps its
/// own arithmetic in range.
pub open spec fn snapshot_ready(state: &GameState, registry: &StaticRegistry) -> bool {
    &&& damage_rules_fit(state, registry)
    &&& forall|card: CardInstanceId, target: Option<CreatureId>| #[trigger] text_fits_against(state, registry, card, target)
}

/// Whether the combat's text can be worked out.
pub fn is_snapshot_ready(state: &GameState, registry: &StaticRegistry) -> (r: bool)
    ensures
        r == snapshot_ready(state, registry),
{
    if !check_damage_rules_fit(state, registry) {
        return false;
    }
    let c = match state.combat() {
        Some(c) => c,
        None => return true,
    };
    let n = c.cards.len();
    let m = c.creatures.len();
    for i in 0..n
        invariant
            n == c.cards@.len(),
            m == c.creatures@.len(),
            state.combat == Some(*c),
            forall|k: int, t: Option<CreatureId>| 0 <= k < i ==> #[trigger] text_fits_against(state, registry, CardInstanceId(k as u32), t),
    {
        let card = CardInstanceId(i as u32);
        let ctx0 = CardTextCtx { state, registry, target: None, scope: CardTextScope::Pile };
        if !card_text_fits(&ctx0, card) {
            proof {
                assert(!text_fits_against(state, registry, card, None));
            }
            return false;
        }
        for j in 0..m
            invariant
                n == c.cards@.len(),
                m == c.creatures@.len(),
                state.combat == Some(*c),
                card == CardInstanceId(i as u32),
                text_fits_against(state, registry, card, None),
                forall|k: int| 0 <= k < j ==> #[trigger] text_fits_against(state, registry, card, Some(CreatureId(k as u32))),
        {
            let target = CreatureId(j as u32);
            let ctx1 = CardTextCtx { state, registry, target: Some(target), scope: CardTextScope::Pile };
            if !card_text_fits(&ctx1, card) {
                proof {
                    assert(!text_fits_against(state, registry, card, Some(target)));
                }
                return false;
            }
        }
        proof {
            assert forall|t: Option<CreatureId>| #[trigger] text_fits_against(state, registry, card, t) by {
                if let Some(x) = t {
                    if (x.0 as int) < m {
                        assert(CreatureId((x.0 as int) as u32) == x);
                        assert(text_fits_against(state, registry, card, Some(CreatureId((x.0 as int) as u32))));
                    } else {
                        assert(state.spec_creature(x) is None);
                    }
                }
            }
        }
    }
    proof {
        assert forall|card: CardInstanceId, t: Option<CreatureId>| #[trigger] text_fits_against(state, registry, card, t) by {
            if (card.0 as int) < n {
                assert(CardInstanceId((card.0 as int) as u32) == card);
                assert(text_fits_against(state, registry, CardInstanceId((card.0 as int) as u32), t));
            } else {
                assert(state.spec_card(card) is None);
            }
        }
    }
    true
}

/// A power's label: its registered name, else its identifier.
pub open spec fn power_label(registry: &StaticRegistry, loc: &Localization, def: PowerId) -> Seq<char> {
    if registry.powers@.contains_key(def) {
        loc.spec_entity_name(registry.powers@[def].loc_key)
    } else {
        def.spec_as_str()@
    }
}

/// The powers listed, skipping ids that name no power of the combat.
pub open spec fn power_rows(state: &GameState, registry: &StaticRegistry, loc: &Localization, ids: Seq<crate::ids::PowerInstanceId>) -> Seq<(Seq<char>, i32)>
    decreases ids.len(),
{
    if ids.len() == 0 {
        seq![]
    } else {
        let rest = power_rows(state, registry, loc, ids.drop_last());
        match state.spec_power(ids.last()) {
            Some(p) => rest.push((power_label(registry, loc, p.def), p.amount)),
            None => rest,
        }
    }
}

/// The powers of a creature, in the order it gained them; none outside combat.
pub open spec fn spec_power_views(state: &GameState, registry: &StaticRegistry, loc: &Localization, owner: CreatureId) -> Seq<(Seq<char>, i32)> {
    match state.combat {
        Some(_) => match state.spec_creature(owner) {
            Some(c) => power_rows(state, registry, loc, c.powers@),
            None => seq![],
        },
        None => seq![],
    }
}

/// A creature that is not there: nothing known but its label.
pub open spec fn placeholder_view(label: Seq<char>, loc: &Localization) -> CreatureModel {
    (label, 0, 0, 0, loc.spec_ui("label.unknown")@, seq![], false)
}

/// The player's creature.
pub open spec fn player_view(state: &GameState, registry: &StaticRegistry, loc: &Localization) -> CreatureModel {
    match state.combat {
        Some(c) => match state.spec_creature(c.player.creature) {
            Some(cr) => creature_view_of(state, registry, loc, cr),
            None => placeholder_view(loc.spec_ui("entity.player")@, loc),
        },
        None => placeholder_view(loc.spec_ui("entity.player")@, loc),
    }
}

/// A creature shown as the player.
pub open spec fn creature_view_of(state: &GameState, registry: &StaticRegistry, loc: &Localization, c: Creature) -> CreatureModel {
    (
        loc.spec_ui("entity.player")@,
        c.hp,
        c.max_hp,
        c.block,
        loc.spec_ui("label.none")@,
        spec_power_views(state, registry, loc, c.id),
        c.alive,
    )
}

/// The intent a behaviour shows for a monster.
pub open spec fn behavior_intent(state: &GameState, behavior: MonsterBehavior, monster: CreatureId) -> MonsterIntent {
    match behavior {
        MonsterBehavior::Nibbit => nibbit_intent_of(nibbit_move(state, monster)),
    }
}

/// The words for a monster's intent; `unknown` for a creature without a
/// registered model.
pub open spec fn intent_label(state: &GameState, registry: &StaticRegistry, loc: &Localization, monster: CreatureId) -> Seq<char> {
    match state.spec_creature(monster) {
        Some(c) => match c.model {
            Some(m) => if registry.monsters@.contains_key(m) {
                loc.spec_intent(behavior_intent(state, registry.monsters@[m].behavior, monster))
            } else {
                loc.spec_ui("label.unknown")@
            },
            None => loc.spec_ui("label.unknown")@,
        },
        None => loc.spec_ui("label.unknown")@,
    }
}

/// A monster's label: its model's name, else its creature id.
pub open spec fn monster_label(registry: &StaticRegistry, loc: &Localization, c: Creature) -> Seq<char> {
    match c.model {
        Some(m) => if registry.monsters@.contains_key(m) {
            loc.spec_entity_name(registry.monsters@[m].loc_key)
        } else {
            creature_text(c.id)
        },
        None => creature_text(c.id),
    }
}

/// A monster.
pub open spec fn monster_view(state: &GameState, registry: &StaticRegistry, loc: &Localization, id: CreatureId) -> CreatureModel {
    match state.spec_creature(id) {
        Some(c) => (
            monster_label(registry, loc, c),
            c.hp,
            c.max_hp,
            c.block,
            intent_label(state, registry, loc, id),
            spec_power_views(state, registry, loc, c.id),
            c.alive,
        ),
        None => placeholder_view(loc.spec_ui("entity.monster")@, loc),
    }
}

/// A monster is shown while alive, and after death while a rule keeps it in
/// the combat.
pub open spec fn visible_in_snapshot(state: &GameState, registry: &StaticRegistry, c: Creature) -> bool {
    c.alive || !(pipeline_decision(
        state,
        registry,
        DecisionQuery { kind: DecisionQueryKind::ShouldRemoveCreatureAfterDeath { creature: c.id } },
    ) is Allow)
}

/// The monsters shown, in creature order.
pub open spec fn visible_monster_ids(state: &GameState, registry: &StaticRegistry) -> Seq<CreatureId> {
    match state.combat {
        Some(c) => c.creatures@.filter(
            |cr: Creature| cr.side == Side::Monsters && visible_in_snapshot(state, registry, cr),
        ).map_values(|cr: Creature| cr.id),
        None => seq![],
    }
}

/// Card text in the language.
pub open spec fn line_texts(language: Language, lines: Seq<(Seq<char>, Seq<char>)>) -> Seq<Seq<char>> {
    lines.map_values(
        |l: (Seq<char>, Seq<char>)|
            match language {
                Language::Eng => l.0,
                Language::Zhs => l.1,
            },
    )
}

/// The text context a card is described in.
pub open spec fn card_ctx<'a>(state: &'a GameState, registry: &'a StaticRegistry, c: CardState, target: Option<CreatureId>) -> CardTextCtx<'a> {
    CardTextCtx {
        state,
        registry,
        target,
        scope: if c.pile.kind == PileKind::Hand { CardTextScope::Hand } else { CardTextScope::Pile },
    }
}

/// A card's label: its name, else its identifier, with `+` when upgraded.
pub open spec fn card_view_label(registry: &StaticRegistry, loc: &Localization, c: CardState) -> Seq<char> {
    let base = if registry.cards@.contains_key(c.def) {
        loc.spec_entity_name(registry.cards@[c.def].loc_key)
    } else {
        c.def.spec_as_str()@
    };
    if c.upgraded {
        base + "+"@
    } else {
        base
    }
}

/// One cost part, such as `E:1`.
pub open spec fn cost_part(key: &'static str, cost: CardCost, loc: &Localization) -> Seq<char> {
    loc.spec_ui(key)@ + ":"@ + loc.spec_cost(cost)
}

/// The cost text: the energy and star parts that are set, joined by `/`;
/// `-` when neither is.
pub open spec fn cost_text(costs: CardCosts, loc: &Localization) -> Seq<char> {
    let e = costs.energy != CardCost::NoCost;
    let s = costs.stars != CardCost::NoCost;
    if e && s {
        cost_part("cost.energy", costs.energy, loc) + "/"@ + cost_part("cost.stars", costs.stars, loc)
    } else if e {
        cost_part("cost.energy", costs.energy, loc)
    } else if s {
        cost_part("cost.stars", costs.stars, loc)
    } else {
        "-"@
    }
}

/// A card, described with the first preview target when there are targets,
/// and once against each target.
pub open spec fn card_view(state: &GameState, registry: &StaticRegistry, loc: &Localization, id: CardInstanceId, preview: Option<Seq<CreatureId>>) -> CardModel {
    match state.spec_card(id) {
        None => (
            card_instance_text(id),
            loc.spec_ui("label.unknown")@,
            "?"@,
            CardCosts { energy: CardCost::NoCost, stars: CardCost::NoCost },
            TargetType::Untargeted,
            seq![],
            seq![],
            seq![],
        ),
        Some(c) => {
            let first = match preview {
                Some(t) => if t.len() > 0 { Some(t[0]) } else { None },
                None => None,
            };
            let ctx = card_ctx(state, registry, c, first);
            let costs = card_display_costs(&ctx, id);
            let registered = registry.cards@.contains_key(c.def);
            (
                card_view_label(registry, loc, c),
                if registered {
                    card_type_label(loc.spec_language(), registry.cards@[c.def].card_type)@
                } else {
                    loc.spec_ui("label.unknown")@
                },
                cost_text(costs, loc),
                costs,
                if registered { registry.cards@[c.def].target } else { TargetType::Untargeted },
                card_keywords(&ctx, id).map_values(|k: crate::content::cards::CardKeyword| keyword_label(loc.spec_language(), k)@),
                line_texts(loc.spec_language(), card_lines(&ctx, id)),
                match preview {
                    Some(t) => t.map_values(
                        |tg: CreatureId| line_texts(loc.spec_language(), card_lines(&card_ctx(state, registry, c, Some(tg)), id)),
                    ),
                    None => seq![],
                },
            )
        },
    }
}

pub open spec fn card_views(state: &GameState, registry: &StaticRegistry, loc: &Localization, ids: Seq<CardInstanceId>, preview: Option<Seq<CreatureId>>) -> Seq<CardModel> {
    ids.map_values(|id: CardInstanceId| card_view(state, registry, loc, id, preview))
}

// ---------------------------------------------------------------------------
// Building the views
// ---------------------------------------------------------------------------

fn power_label_exec(registry: &StaticRegistry, loc: &Localization, def: PowerId) -> (r: String)
    ensures
        r@ == power_label(registry, loc, def),
{
    match registry.powers.get(def) {
        Some(d) => loc.entity_name(d.loc_key),
        None => owned(def.as_str()),
    }
}

/// The powers of a creature, with their labels and amounts.
pub fn power_views(engine: &Engine<'_>, owner: CreatureId, loc: &Localization) -> (r: Vec<PowerView>)
    ensures
        power_views_view(r@) == spec_power_views(&engine.state, engine.registry, loc, owner),
{
    let mut out: Vec<PowerView> = Vec::new();
    if engine.state.combat().is_none() {
        assert(power_views_view(out@) =~= seq![]);
        return out;
    }
    let creature = match engine.state.creature(owner) {
        Some(c) => c,
        None => {
            assert(power_views_view(out@) =~= seq![]);
            return out;
        },
    };
    let n = creature.powers.len();
    for i in 0..n
        invariant
            n == creature.powers@.len(),
            power_views_view(out@) == power_rows(&engine.state, engine.registry, loc, creature.powers@.take(i as int)),
    {
        proof {
            assert(creature.powers@.take((i + 1) as int).drop_last() =~= creature.powers@.take(i as int));
        }
        match engine.state.power(creature.powers[i]) {
            Some(p) => {
                let label = power_label_exec(engine.registry, loc, p.def);
                out.push(PowerView { label, amount: p.amount });
                proof {
                    assert(power_views_view(out@) =~= power_views_view(out@.drop_last()).push(out@.last()@));
                }
            },
            None => {},
        }
    }
    proof {
        assert(creature.powers@.take(n as int) =~= creature.powers@);
    }
    out
}

/// The words for a monster's intent.
pub fn monster_intent_label(engine: &Engine<'_>, monster: CreatureId, loc: &Localization) -> (r: String)
    ensures
        r@ == intent_label(&engine.state, engine.registry, loc, monster),
{
    let creature = match engine.state.creature(monster) {
        Some(c) => c,
        None => return owned(loc.ui("label.unknown")),
    };
    let model = match creature.model {
        Some(m) => m,
        None => return owned(loc.ui("label.unknown")),
    };
    let def = match engine.registry.monsters.get(model) {
        Some(d) => d,
        None => return owned(loc.ui("label.unknown")),
    };
    let ctx = RuleCtx { state: &engine.state, registry: engine.registry, listener: None };
    loc.intent(monster_intent(&ctx, def.behavior, monster))
}

impl CreatureView {
    /// A creature that is not there.
    pub fn placeholder(label: &str, loc: &Localization) -> (r: CreatureView)
        ensures
            r@ == placeholder_view(label@, loc),
    {
        let r = CreatureView {
            label: owned(label),
            hp: 0,
            max_hp: 0,
            block: 0,
            intent: owned(loc.ui("label.unknown")),
            powers: Vec::new(),
            alive: false,
        };
        assert(power_views_view(r.powers@) =~= seq![]);
        r
    }

    /// The player's creature.
    pub fn from_creature(engine: &Engine<'_>, creature: &Creature, loc: &Localization) -> (r: CreatureView)
        ensures
            r@ == creature_view_of(&engine.state, engine.registry, loc, *creature),
    {
        CreatureView {
            label: owned(loc.ui("entity.player")),
            hp: creature.hp,
            max_hp: creature.max_hp,
            block: creature.block,
            intent: owned(loc.ui("label.none")),
            powers: power_views(engine, creature.id, loc),
            alive: creature.alive,
        }
    }

    /// A monster of the combat.
    pub fn from_monster(engine: &Engine<'_>, id: CreatureId, loc: &Localization) -> (r: CreatureView)
        ensures
            r@ == monster_view(&engine.state, engine.registry, loc, id),
    {
        let creature = match engine.state.creature(id) {
            Some(c) => c,
            None => return CreatureView::placeholder(loc.ui("entity.monster"), loc),
        };
        let label = match creature.model {
            Some(m) => match engine.registry.monsters.get(m) {
                Some(def) => loc.entity_name(def.loc_key),
                None => {
                    let mut s = String::new();
                    push_creature(&mut s, creature.id);
                    s
                },
            },
            None => {
                let mut s = String::new();
                push_creature(&mut s, creature.id);
                s
            },
        };
        CreatureView {
            label,
            hp: creature.hp,
            max_hp: creature.max_hp,
            block: creature.block,
            intent: monster_intent_label(engine, id, loc),
            powers: power_views(engine, creature.id, loc),
            alive: creature.alive,
        }
    }
}

/// Whether a monster is shown: alive, or kept in the combat by a rule after death.
pub fn monster_is_visible_in_snapshot(engine: &Engine<'_>, creature: &Creature) -> (r: bool)
    ensures
        r == visible_in_snapshot(&engine.state, engine.registry, *creature),
{
    creature.alive || !should_remove_creature_after_death(engine.registry, &engine.state, creature.id).is_allowed()
}

/// The text of one resource's cost.
pub fn single_cost_label(cost: CardCost, loc: &Localization) -> (r: String)
    ensures
        r@ == loc.spec_cost(cost),
{
    loc.cost(cost)
}

fn cost_part_exec(key: &'static str, cost: CardCost, loc: &Localization) -> (r: String)
    ensures
        r@ == cost_part(key, cost, loc),
{
    let s = owned(loc.ui(key));
    let s = append_str(s, ":");
    let c = single_cost_label(cost, loc);
    append_str(s, c.as_str())
}

/// The cost text of a card: energy and stars, each where set.
pub fn cost_label(costs: CardCosts, loc: &Localization) -> (r: String)
    ensures
        r@ == cost_text(costs, loc),
{
    let e = costs.energy != CardCost::NoCost;
    let s = costs.stars != CardCost::NoCost;
    if e && s {
        let a = cost_part_exec("cost.energy", costs.energy, loc);
        let a = append_str(a, "/");
        let b = cost_part_exec("cost.stars", costs.stars, loc);
        append_str(a, b.as_str())
    } else if e {
        cost_part_exec("cost.energy", costs.energy, loc)
    } else if s {
        cost_part_exec("cost.stars", costs.stars, loc)
    } else {
        owned("-")
    }
}

/// The card's name, or its id where it has no registered definition.
pub fn card_label(engine: &Engine<'_>, id: CardInstanceId, loc: &Localization) -> (r: String)
    ensures
        r@ == match engine.state.spec_card(id) {
            Some(c) => if engine.registry.cards@.contains_key(c.def) {
                loc.spec_entity_name(engine.registry.cards@[c.def].loc_key)
            } else {
                card_instance_text(id)
            },
            None => card_instance_text(id),
        },
{
    let def = match engine.state.card(id) {
        Some(c) => engine.registry.cards.get(c.def),
        None => None,
    };
    match def {
        Some(d) => loc.entity_name(d.loc_key),
        None => {
            let mut s = String::new();
            push_card_instance(&mut s, id);
            s
        },
    }
}

fn line_strings(lines: &Vec<CardTextLine>, loc: &Localization) -> (r: Vec<String>)
    ensures
        strings_view(r@) == line_texts(loc.spec_language(), lines_view(lines@)),
{
    let mut out: Vec<String> = Vec::new();
    let n = lines.len();
    for i in 0..n
        invariant
            n == lines@.len(),
            strings_view(out@) == line_texts(loc.spec_language(), lines_view(lines@.take(i as int))),
    {
        let s = loc.card_text_line(&lines[i]);
        let ghost before = out@;
        out.push(s);
        proof {
            let lv = lines_view(lines@.take(i as int));
            assert(lines_view(lines@.take((i + 1) as int)) =~= lv.push(lines@[i as int]@));
            assert(line_texts(loc.spec_language(), lv.push(lines@[i as int]@)) =~= line_texts(loc.spec_language(), lv).push(s@));
            assert(strings_view(out@) =~= strings_view(before).push(s@));
        }
    }
    proof {
        assert(lines@.take(n as int) =~= lines@);
    }
    out
}

fn keyword_strings(keywords: &Vec<crate::content::cards::CardKeyword>, loc: &Localization) -> (r: Vec<String>)
    ensures
        strings_view(r@) == keywords@.map_values(|k: crate::content::cards::CardKeyword| keyword_label(loc.spec_language(), k)@),
{
    let mut out: Vec<String> = Vec::new();
    let n = keywords.len();
    for i in 0..n
        invariant
            n == keywords@.len(),
            strings_view(out@) == keywords@.take(i as int).map_values(
                |k: crate::content::cards::CardKeyword| keyword_label(loc.spec_language(), k)@,
            ),
    {
        let w = owned(loc.card_keyword(keywords[i]));
        let ghost before = out@;
        out.push(w);
        proof {
            assert(strings_view(out@) =~= strings_view(before).push(w@));
            assert(strings_view(out@) =~= keywords@.take((i + 1) as int).map_values(
                |k: crate::content::cards::CardKeyword| keyword_label(loc.spec_language(), k)@,
            ));
        }
    }
    proof {
        assert(keywords@.take(n as int) =~= keywords@);
    }
    out
}

proof fn lemma_ready_text(state: &GameState, registry: &StaticRegistry, ctx: &CardTextCtx, card: CardInstanceId)
    requires
        snapshot_ready(state, registry),
        ctx.state == state,
        ctx.registry == registry,
    ensures
        text_ready(ctx, card),
{
    assert(text_fits_against(state, registry, card, ctx.target));
}

impl CardView {
    /// A card, described in its pile's scope, against the first preview
    /// target and once against each preview target.
    pub fn from_card(engine: &Engine<'_>, id: CardInstanceId, loc: &Localization, preview_targets: Option<&Vec<CreatureId>>) -> (r: CardView)
        requires
            snapshot_ready(&engine.state, engine.registry),
        ensures
            r@ == card_view(
                &engine.state,
                engine.registry,
                loc,
                id,
                match preview_targets {
                    Some(t) => Some(t@),
                    None => None,
                },
            ),
    {
        let card = match engine.state.card(id) {
            Some(c) => c,
            None => {
                let mut label = String::new();
                push_card_instance(&mut label, id);
                let r = CardView {
                    label,
                    card_type: owned(loc.ui("label.unknown")),
                    cost: owned("?"),
                    costs: CardCosts::default(),
                    target: TargetType::Untargeted,
                    keywords: Vec::new(),
                    description: Vec::new(),
                    target_descriptions: Vec::new(),
                };
                proof {
                    assert(strings_view(r.keywords@) =~= seq![]);
                    assert(strings_view(r.description@) =~= seq![]);
                    assert(r.target_descriptions@.map_values(|d: Vec<String>| strings_view(d@)) =~= seq![]);
                }
                return r;
            },
        };
        let ghost preview = match preview_targets {
            Some(t) => Some(t@),
            None => None,
        };
        let def = engine.registry.cards.get(card.def);
        let scope = if card.pile.kind == PileKind::Hand { CardTextScope::Hand } else { CardTextScope::Pile };
        let first = match preview_targets {
            Some(t) => if t.len() > 0 { Some(t[0]) } else { None },
            None => None,
        };
        let text_ctx = CardTextCtx { state: &engine.state, registry: engine.registry, target: first, scope };
        proof {
            lemma_ready_text(&engine.state, engine.registry, &text_ctx, id);
            assert(text_ctx == card_ctx(&engine.state, engine.registry, *card, first));
        }
        let text = describe_card(&text_ctx, id);
        let costs = display_costs(&text_ctx, id);
        let base_label = match def {
            Some(d) => loc.entity_name(d.loc_key),
            None => owned(card.def.as_str()),
        };
        let label = if card.upgraded { append_str(base_label, "+") } else { base_label };
        let mut target_descriptions: Vec<Vec<String>> = Vec::new();
        match preview_targets {
            Some(targets) => {
                let n = targets.len();
                for i in 0..n
                    invariant
                        n == targets@.len(),
                        snapshot_ready(&engine.state, engine.registry),
                        engine.state.spec_card(id) == Some(*card),
                        scope == (if card.pile.kind == PileKind::Hand { CardTextScope::Hand } else { CardTextScope::Pile }),
                        target_descriptions@.map_values(|d: Vec<String>| strings_view(d@)) == targets@.take(i as int).map_values(
                            |tg: CreatureId| line_texts(loc.spec_language(), card_lines(&card_ctx(&engine.state, engine.registry, *card, Some(tg)), id)),
                        ),
                {
                    let ctx = CardTextCtx { state: &engine.state, registry: engine.registry, target: Some(targets[i]), scope };
                    proof {
                        lemma_ready_text(&engine.state, engine.registry, &ctx, id);
                        assert(ctx == card_ctx(&engine.state, engine.registry, *card, Some(targets@[i as int])));
                    }
                    let described = describe_card(&ctx, id);
                    let lines = line_strings(&described.lines, loc);
                    let ghost before = target_descriptions@;
                    target_descriptions.push(lines);
                    proof {
                        assert(target_descriptions@.map_values(|d: Vec<String>| strings_view(d@)) =~= before.map_values(
                            |d: Vec<String>| strings_view(d@),
                        ).push(strings_view(lines@)));
                        assert(target_descriptions@.map_values(|d: Vec<String>| strings_view(d@)) =~= targets@.take((i + 1) as int).map_values(
                            |tg: CreatureId| line_texts(loc.spec_language(), card_lines(&card_ctx(&engine.state, engine.registry, *card, Some(tg)), id)),
                        ));
                    }
                }
                proof {
                    assert(targets@.take(n as int) =~= targets@);
                }
            },
            None => {
                assert(target_descriptions@.map_values(|d: Vec<String>| strings_view(d@)) =~= seq![]);
            },
        }
        let card_type = match def {
            Some(d) => owned(loc.card_type(d.card_type)),
            None => owned(loc.ui("label.unknown")),
        };
        let target = match def {
            Some(d) => d.target,
            None => TargetType::Untargeted,
        };
        let keywords = keyword_strings(&text.keywords, loc);
        let description = line_strings(&text.lines, loc);
        let cost = cost_label(costs, loc);
        CardView { label, card_type, cost, costs, target, keywords, description, target_descriptions }
    }

    /// The description against the target at the index, where there is a
    /// non-empty one; else the card's own description.
    pub fn description_for_target(&self, target_index: Option<usize>) -> (r: &Vec<String>)
        ensures
            r@ == match target_index {
                Some(i) => if i < self.target_descriptions@.len() && self.target_descriptions@[i as int]@.len() > 0 {
                    self.target_descriptions@[i as int]@
                } else {
                    self.description@
                },
                None => self.description@,
            },
    {
        match target_index {
            Some(i) => {
                if i < self.target_descriptions.len() && self.target_descriptions[i].len() > 0 {
                    &self.target_descriptions[i]
                } else {
                    &self.description
                }
            },
            None => &self.description,
        }
    }
}

/// The cards of one of the combat's piles, in pile order.
pub fn pile_cards(combat: Option<&CombatState>, engine: &Engine<'_>, loc: &Localization, pile: PileKind) -> (r: Vec<CardView>)
    requires
        snapshot_ready(&engine.state, engine.registry),
    ensures
        card_views_view(r@) == match combat {
            Some(c) => card_views(&engine.state, engine.registry, loc, c.player.piles.spec_pile(pile), None),
            None => seq![],
        },
{
    let mut out: Vec<CardView> = Vec::new();
    match combat {
        Some(c) => {
            let ids = c.player.piles.pile(pile);
            let n = ids.len();
            for i in 0..n
                invariant
                    n == ids@.len(),
                    ids@ == c.player.piles.spec_pile(pile),
                    snapshot_ready(&engine.state, engine.registry),
                    card_views_view(out@) == card_views(&engine.state, engine.registry, loc, ids@.take(i as int), None),
            {
                let v = CardView::from_card(engine, ids[i], loc, None);
                let ghost before = out@;
                out.push(v);
                proof {
                    assert(card_views_view(out@) =~= card_views_view(before).push(v@));
                    assert(card_views_view(out@) =~= card_views(&engine.state, engine.registry, loc, ids@.take((i + 1) as int), None));
                }
            }
            proof {
                assert(ids@.take(n as int) =~= ids@);
            }
        },
        None => {
            assert(card_views_view(out@) =~= seq![]);
        },
    }
    out
}

/// The joined power texts: `label` for an amount of one, `label amount` else,
/// separated by `, `.
pub open spec fn power_text(p: (Seq<char>, i32)) -> Seq<char> {
    if p.1 == 1 {
        p.0
    } else {
        p.0 + " "@ + int_text(p.1 as int)
    }
}

pub open spec fn power_list_text(powers: Seq<(Seq<char>, i32)>) -> Seq<char>
    decreases powers.len(),
{
    if powers.len() == 0 {
        seq![]
    } else if powers.len() == 1 {
        power_text(powers[0])
    } else {
        power_list_text(powers.drop_last()) + ", "@ + power_text(powers.last())
    }
}

/// One power: its label, and its amount unless that is one.
pub fn format_power(power: &PowerView) -> (r: String)
    ensures
        r@ == power_text(power@),
{
    let mut s = owned(power.label.as_str());
    if power.amount != 1 {
        s.append(" ");
        push_int(&mut s, power.amount as i64);
    }
    s
}

/// The powers, joined by `, `.
pub fn format_power_list(powers: &Vec<PowerView>) -> (r: String)
    ensures
        r@ == power_list_text(power_views_view(powers@)),
{
    let mut s = String::new();
    let n = powers.len();
    for i in 0..n
        invariant
            n == powers@.len(),
            s@ == power_list_text(power_views_view(powers@.take(i as int))),
    {
        proof {
            assert(power_views_view(powers@.take((i + 1) as int)).drop_last() =~= power_views_view(powers@.take(i as int)));
        }
        if i > 0 {
            s.append(", ");
        }
        let p = format_power(&powers[i]);
        s.append(p.as_str());
    }
    proof {
        assert(powers@.take(n as int) =~= powers@);
    }
    s
}

/// `r` is what the interface shows of the engine's combat: the player, the
/// monsters that are shown, the hand described against those monsters, and
/// the piles; placeholders and zeros outside combat.
pub open spec fn snapshot_of(r: CombatSnapshot, engine: &Engine, loc: &Localization) -> bool {
    &&& r.seed == engine.state.run.seed
    &&& r.phase == match engine.state.combat {
        Some(c) => c.phase,
        None => CombatPhase::CombatStart,
    }
    &&& r.player@ == player_view(&engine.state, engine.registry, loc)
    &&& r.energy == match engine.state.combat {
        Some(c) => c.player.energy,
        None => 0,
    }
    &&& r.max_energy == match engine.state.combat {
        Some(c) => c.player.max_energy,
        None => 0,
    }
    &&& r.stars == match engine.state.combat {
        Some(c) => c.player.stars,
        None => 0,
    }
    &&& creature_views_view(r.monsters@) == visible_monster_ids(&engine.state, engine.registry).map_values(
        |id: CreatureId| monster_view(&engine.state, engine.registry, loc, id),
    )
    &&& card_views_view(r.hand@) == match engine.state.combat {
        Some(c) => card_views(&engine.state, engine.registry, loc, c.player.piles.hand@, Some(visible_monster_ids(&engine.state, engine.registry))),
        None => seq![],
    }
    &&& card_views_view(r.draw_pile@) == match engine.state.combat {
        Some(c) => card_views(&engine.state, engine.registry, loc, c.player.piles.draw@, None),
        None => seq![],
    }
    &&& card_views_view(r.discard_pile@) == match engine.state.combat {
        Some(c) => card_views(&engine.state, engine.registry, loc, c.player.piles.discard@, None),
        None => seq![],
    }
    &&& card_views_view(r.exhaust_pile@) == match engine.state.combat {
        Some(c) => card_views(&engine.state, engine.registry, loc, c.player.piles.exhaust@, None),
        None => seq![],
    }
}

impl CombatSnapshot {
    /// What the interface shows of the engine's combat: the player, the
    /// monsters that are shown, the hand described against those monsters,
    /// and the piles; placeholders and zeros outside combat.
    pub fn from_engine(engine: &Engine<'_>, loc: &Localization) -> (r: CombatSnapshot)
        requires
            snapshot_ready(&engine.state, engine.registry),
        ensures
            snapshot_of(r, engine, loc),
    {
        let combat = engine.state.combat();
        let phase = match combat {
            Some(c) => c.phase,
            None => CombatPhase::CombatStart,
        };
        let player = match combat {
            Some(c) => match engine.state.creature(c.player.creature) {
                Some(cr) => CreatureView::from_creature(engine, cr, loc),
                None => CreatureView::placeholder(loc.ui("entity.player"), loc),
            },
            None => CreatureView::placeholder(loc.ui("entity.player"), loc),
        };
        let visible = visible_monsters(engine);
        let mut monsters: Vec<CreatureView> = Vec::new();
        let n = visible.len();
        for i in 0..n
            invariant
                n == visible@.len(),
                creature_views_view(monsters@) == visible@.take(i as int).map_values(
                    |id: CreatureId| monster_view(&engine.state, engine.registry, loc, id),
                ),
        {
            let v = CreatureView::from_monster(engine, visible[i], loc);
            let ghost before = monsters@;
            monsters.push(v);
            proof {
                assert(creature_views_view(monsters@) =~= creature_views_view(before).push(v@));
                assert(creature_views_view(monsters@) =~= visible@.take((i + 1) as int).map_values(
                    |id: CreatureId| monster_view(&engine.state, engine.registry, loc, id),
                ));
            }
        }
        proof {
            assert(visible@.take(n as int) =~= visible@);
        }
        let mut hand: Vec<CardView> = Vec::new();
        match combat {
            Some(c) => {
                let ids = &c.player.piles.hand;
                let m = ids.len();
                for i in 0..m
                    invariant
                        m == ids@.len(),
                        snapshot_ready(&engine.state, engine.registry),
                        card_views_view(hand@) == card_views(&engine.state, engine.registry, loc, ids@.take(i as int), Some(visible@)),
                {
                    let v = CardView::from_card(engine, ids[i], loc, Some(&visible));
                    let ghost before = hand@;
                    hand.push(v);
                    proof {
                        assert(card_views_view(hand@) =~= card_views_view(before).push(v@));
                        assert(card_views_view(hand@) =~= card_views(&engine.state, engine.registry, loc, ids@.take((i + 1) as int), Some(visible@)));
                    }
                }
                proof {
                    assert(ids@.take(m as int) =~= ids@);
                }
            },
            None => {
                assert(card_views_view(hand@) =~= seq![]);
            },
        }
        let (energy, max_energy, stars) = match combat {
            Some(c) => (c.player.energy, c.player.max_energy, c.player.stars),
            None => (0, 0, 0),
        };
        let draw_pile = pile_cards(combat, engine, loc, PileKind::Draw);
        let discard_pile = pile_cards(combat, engine, loc, PileKind::Discard);
        let exhaust_pile = pile_cards(combat, engine, loc, PileKind::Exhaust);
        CombatSnapshot {
            seed: engine.state.run.seed,
            phase,
            player,
            energy,
            max_energy,
            stars,
            draw_pile,
            discard_pile,
            exhaust_pile,
            monsters,
            hand,
        }
    }
}

/// `id` is the id of a monster of the combat that is alive or kept in the
/// combat by a rule after death.
pub open spec fn shown_monster(state: &GameState, registry: &StaticRegistry, id: CreatureId) -> bool {
    exists|j: int|
        0 <= j < state.combat->0.creatures@.len() && (#[trigger] state.combat->0.creatures@[j]).id == id
            && state.combat->0.creatures@[j].side == Side::Monsters && visible_in_snapshot(
            state,
            registry,
            state.combat->0.creatures@[j],
        )
}

/// The snapshot shows exactly the monsters that are alive or kept in the
/// combat by a rule after death: each shown id is such a monster's, and each
/// such monster's id is shown.
pub proof fn lemma_shown_monsters(state: &GameState, registry: &StaticRegistry)
    requires
        state.combat is Some,
    ensures
        forall|i: int|
            0 <= i < visible_monster_ids(state, registry).len() ==> shown_monster(
                state,
                registry,
                #[trigger] visible_monster_ids(state, registry)[i],
            ),
        forall|j: int|
            0 <= j < state.combat->0.creatures@.len() && (#[trigger] state.combat->0.creatures@[j]).side == Side::Monsters
                && visible_in_snapshot(state, registry, state.combat->0.creatures@[j]) ==> visible_monster_ids(
                state,
                registry,
            ).contains(state.combat->0.creatures@[j].id),
{
    let cs = state.combat->0.creatures@;
    let pred = |cr: Creature| cr.side == Side::Monsters && visible_in_snapshot(state, registry, cr);
    let f = cs.filter(pred);
    let shown = visible_monster_ids(state, registry);
    assert(shown == f.map_values(|cr: Creature| cr.id));
    assert forall|i: int| 0 <= i < shown.len() implies shown_monster(state, registry, #[trigger] shown[i]) by {
        cs.lemma_filter_pred(pred, i);
        assert(f.contains(f[i]));
        cs.lemma_filter_contains_rev(pred, f[i]);
        let j = choose|j: int| 0 <= j < cs.len() && cs[j] == f[i];
        assert(cs[j].id == shown[i]);
    }
    assert forall|j: int| 0 <= j < cs.len() && (#[trigger] cs[j]).side == Side::Monsters && visible_in_snapshot(
        state,
        registry,
        cs[j],
    ) implies shown.contains(cs[j].id) by {
        cs.lemma_filter_contains(pred, j);
        let k = choose|k: int| 0 <= k < f.len() && f[k] == cs[j];
        assert(shown[k] == cs[j].id);
    }
}

/// The ids of the monsters shown, in creature order.
pub fn visible_monsters(engine: &Engine<'_>) -> (r: Vec<CreatureId>)
    ensures
        r@ == visible_monster_ids(&engine.state, engine.registry),
{
    let mut out: Vec<CreatureId> = Vec::new();
    match engine.state.combat() {
        Some(c) => {
            let n = c.creatures.len();
            for i in 0..n
                invariant
                    n == c.creatures@.len(),
                    engine.state.combat == Some(*c),
                    out@ == c.creatures@.take(i as int).filter(
                        |cr: Creature| cr.side == Side::Monsters && visible_in_snapshot(&engine.state, engine.registry, cr),
                    ).map_values(|cr: Creature| cr.id),
            {
                proof {
                    reveal_with_fuel(Seq::filter, 1);
                    assert(c.creatures@.take((i + 1) as int).drop_last() =~= c.creatures@.take(i as int));
                }
                let cr = &c.creatures[i];
                if cr.side == Side::Monsters && monster_is_visible_in_snapshot(engine, cr) {
                    out.push(cr.id);
                }
            }
            proof {
                assert(c.creatures@.take(n as int) =~= c.creatures@);
            }
        },
        None => {},
    }
    out
}

} // verus!
