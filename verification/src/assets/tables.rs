//! The tables of localized texts: interface strings and entity names.
use vstd::prelude::*;

verus! {

/// One key with its English and Simplified Chinese texts.
#[derive(Clone, Copy, Debug)]
pub struct LocalizedEntry {
    pub key: &'static str,
    pub eng: &'static str,
    pub zhs: &'static str,
}

/// The interface strings.
pub open spec fn ui_table() -> Seq<LocalizedEntry> {
    seq![
        LocalizedEntry { key: "app.title", eng: "Slay the Clire 2 combat test", zhs: "Slay the Clire 2 战斗测试" },
        LocalizedEntry { key: "help.compact", eng: "Commands: <card>, <card> <monster>, e=end turn, r=restart, q=quit, ?=help, lang eng|zhs", zhs: "命令：<手牌序号>，<手牌序号> <怪物序号>，e=结束回合，r=重开，q=退出，?=帮助，lang eng|zhs" },
        LocalizedEntry { key: "help.full", eng: "Play by hand index, optionally with a monster index: 1 or 1 2. Use e, r, q, or lang eng|zhs.", zhs: "输入手牌序号出牌，可追加怪物序号，例如 1 或 1 2。可用 e、r、q，或 lang eng|zhs 切换语言。" },
        LocalizedEntry { key: "help.tui.compact", eng: "Keys: arrows target/card, 1-9 select, Enter play, p/m/g/c/d/s/x view, e/r/l/q/?", zhs: "按键：方向键目标/手牌，1-9 选择，Enter 出牌，p/m/g/c/d/s/x 查看，e/r/l/q/?" },
        LocalizedEntry { key: "help.tui.full", eng: "Left/right or number keys select a card; Up/down moves target. p/m/g/c/d/s/x opens focused panels; arrows or mouse wheel scroll there.", zhs: "左右或数字键选择手牌；上下切换目标。p/m/g/c/d/s/x 打开专注栏目；方向键或鼠标滚轮滚动。" },
        LocalizedEntry { key: "label.seed", eng: "seed", zhs: "种子" },
        LocalizedEntry { key: "label.phase", eng: "phase", zhs: "阶段" },
        LocalizedEntry { key: "label.player", eng: "Player", zhs: "玩家" },
        LocalizedEntry { key: "label.hp", eng: "HP", zhs: "生命" },
        LocalizedEntry { key: "label.block", eng: "Block", zhs: "格挡" },
        LocalizedEntry { key: "label.energy", eng: "Energy", zhs: "能量" },
        LocalizedEntry { key: "label.stars", eng: "Stars", zhs: "辉星" },
        LocalizedEntry { key: "label.hand", eng: "Hand", zhs: "手牌" },
        LocalizedEntry { key: "label.status", eng: "Status", zhs: "状态" },
        LocalizedEntry { key: "label.piles", eng: "Piles", zhs: "牌堆" },
        LocalizedEntry { key: "label.draw", eng: "draw", zhs: "抽牌堆" },
        LocalizedEntry { key: "label.discard", eng: "discard", zhs: "弃牌堆" },
        LocalizedEntry { key: "label.exhaust", eng: "exhaust", zhs: "消耗牌堆" },
        LocalizedEntry { key: "label.removed", eng: "removed", zhs: "移除" },
        LocalizedEntry { key: "label.monsters", eng: "Monsters", zhs: "怪物" },
        LocalizedEntry { key: "label.intent", eng: "Intent", zhs: "意图" },
        LocalizedEntry { key: "label.messages", eng: "Messages", zhs: "消息" },
        LocalizedEntry { key: "label.cost", eng: "cost", zhs: "费用" },
        LocalizedEntry { key: "label.target", eng: "target", zhs: "目标" },
        LocalizedEntry { key: "label.none", eng: "none", zhs: "无" },
        LocalizedEntry { key: "label.empty", eng: "empty", zhs: "空" },
        LocalizedEntry { key: "label.dead", eng: "dead", zhs: "已死亡" },
        LocalizedEntry { key: "label.unknown", eng: "unknown", zhs: "未知" },
        LocalizedEntry { key: "label.view", eng: "view", zhs: "查看" },
        LocalizedEntry { key: "label.close", eng: "close", zhs: "返回" },
        LocalizedEntry { key: "entity.player", eng: "player", zhs: "玩家" },
        LocalizedEntry { key: "entity.monster", eng: "monster", zhs: "怪物" },
        LocalizedEntry { key: "action.end_turn", eng: "end turn", zhs: "结束回合" },
        LocalizedEntry { key: "status.done", eng: "done", zhs: "完成" },
        LocalizedEntry { key: "status.choice_requested", eng: "choice requested", zhs: "需要选择" },
        LocalizedEntry { key: "status.combat_ended", eng: "combat ended", zhs: "战斗结束" },
        LocalizedEntry { key: "status.rejected", eng: "rejected", zhs: "被拒绝" },
        LocalizedEntry { key: "status.failed", eng: "failed", zhs: "失败" },
        LocalizedEntry { key: "choice.exhaust_card", eng: "Choose a card to Exhaust.", zhs: "选择1张牌消耗。" },
        LocalizedEntry { key: "unit.log_entries", eng: "log entries", zhs: "条日志" },
        LocalizedEntry { key: "error.card_index_starts_at_one", eng: "card index starts at 1", zhs: "手牌序号从 1 开始" },
        LocalizedEntry { key: "error.monster_index_starts_at_one", eng: "monster index starts at 1", zhs: "怪物序号从 1 开始" },
        LocalizedEntry { key: "error.language_usage", eng: "language must be eng or zhs", zhs: "语言必须是 eng 或 zhs" },
        LocalizedEntry { key: "error.no_active_combat", eng: "no active combat", zhs: "没有进行中的战斗" },
        LocalizedEntry { key: "error.not_player_action_phase", eng: "not in player action phase", zhs: "当前不是玩家行动阶段" },
        LocalizedEntry { key: "cost.energy", eng: "E", zhs: "能" },
        LocalizedEntry { key: "cost.stars", eng: "S", zhs: "星" },
        LocalizedEntry { key: "cost.unplayable", eng: "unplayable", zhs: "不能打出" },
        LocalizedEntry { key: "log.damage", eng: "damage", zhs: "伤害" },
        LocalizedEntry { key: "log.block", eng: "block", zhs: "格挡" },
        LocalizedEntry { key: "log.card_moved", eng: "card moved", zhs: "卡牌移动" },
        LocalizedEntry { key: "log.shuffled", eng: "shuffled", zhs: "洗牌" },
        LocalizedEntry { key: "log.cards", eng: "cards", zhs: "张牌" },
        LocalizedEntry { key: "log.creature_died", eng: "creature died", zhs: "单位死亡" },
        LocalizedEntry { key: "log.combat_result", eng: "combat result", zhs: "战斗结果" },
    ]
}

pub fn ui_text() -> (r: Vec<LocalizedEntry>)
    ensures
        r@ == ui_table(),
{
    vec![
        LocalizedEntry { key: "app.title", eng: "Slay the Clire 2 combat test", zhs: "Slay the Clire 2 战斗测试" },
        LocalizedEntry { key: "help.compact", eng: "Commands: <card>, <card> <monster>, e=end turn, r=restart, q=quit, ?=help, lang eng|zhs", zhs: "命令：<手牌序号>，<手牌序号> <怪物序号>，e=结束回合，r=重开，q=退出，?=帮助，lang eng|zhs" },
        LocalizedEntry { key: "help.full", eng: "Play by hand index, optionally with a monster index: 1 or 1 2. Use e, r, q, or lang eng|zhs.", zhs: "输入手牌序号出牌，可追加怪物序号，例如 1 或 1 2。可用 e、r、q，或 lang eng|zhs 切换语言。" },
        LocalizedEntry { key: "help.tui.compact", eng: "Keys: arrows target/card, 1-9 select, Enter play, p/m/g/c/d/s/x view, e/r/l/q/?", zhs: "按键：方向键目标/手牌，1-9 选择，Enter 出牌，p/m/g/c/d/s/x 查看，e/r/l/q/?" },
        LocalizedEntry { key: "help.tui.full", eng: "Left/right or number keys select a card; Up/down moves target. p/m/g/c/d/s/x opens focused panels; arrows or mouse wheel scroll there.", zhs: "左右或数字键选择手牌；上下切换目标。p/m/g/c/d/s/x 打开专注栏目；方向键或鼠标滚轮滚动。" },
        LocalizedEntry { key: "label.seed", eng: "seed", zhs: "种子" },
        LocalizedEntry { key: "label.phase", eng: "phase", zhs: "阶段" },
        LocalizedEntry { key: "label.player", eng: "Player", zhs: "玩家" },
        LocalizedEntry { key: "label.hp", eng: "HP", zhs: "生命" },
        LocalizedEntry { key: "label.block", eng: "Block", zhs: "格挡" },
        LocalizedEntry { key: "label.energy", eng: "Energy", zhs: "能量" },
        LocalizedEntry { key: "label.stars", eng: "Stars", zhs: "辉星" },
        LocalizedEntry { key: "label.hand", eng: "Hand", zhs: "手牌" },
        LocalizedEntry { key: "label.status", eng: "Status", zhs: "状态" },
        LocalizedEntry { key: "label.piles", eng: "Piles", zhs: "牌堆" },
        LocalizedEntry { key: "label.draw", eng: "draw", zhs: "抽牌堆" },
        LocalizedEntry { key: "label.discard", eng: "discard", zhs: "弃牌堆" },
        LocalizedEntry { key: "label.exhaust", eng: "exhaust", zhs: "消耗牌堆" },
        LocalizedEntry { key: "label.removed", eng: "removed", zhs: "移除" },
        LocalizedEntry { key: "label.monsters", eng: "Monsters", zhs: "怪物" },
        LocalizedEntry { key: "label.intent", eng: "Intent", zhs: "意图" },
        LocalizedEntry { key: "label.messages", eng: "Messages", zhs: "消息" },
        LocalizedEntry { key: "label.cost", eng: "cost", zhs: "费用" },
        LocalizedEntry { key: "label.target", eng: "target", zhs: "目标" },
        LocalizedEntry { key: "label.none", eng: "none", zhs: "无" },
        LocalizedEntry { key: "label.empty", eng: "empty", zhs: "空" },
        LocalizedEntry { key: "label.dead", eng: "dead", zhs: "已死亡" },
        LocalizedEntry { key: "label.unknown", eng: "unknown", zhs: "未知" },
        LocalizedEntry { key: "label.view", eng: "view", zhs: "查看" },
        LocalizedEntry { key: "label.close", eng: "close", zhs: "返回" },
        LocalizedEntry { key: "entity.player", eng: "player", zhs: "玩家" },
        LocalizedEntry { key: "entity.monster", eng: "monster", zhs: "怪物" },
        LocalizedEntry { key: "action.end_turn", eng: "end turn", zhs: "结束回合" },
        LocalizedEntry { key: "status.done", eng: "done", zhs: "完成" },
        LocalizedEntry { key: "status.choice_requested", eng: "choice requested", zhs: "需要选择" },
        LocalizedEntry { key: "status.combat_ended", eng: "combat ended", zhs: "战斗结束" },
        LocalizedEntry { key: "status.rejected", eng: "rejected", zhs: "被拒绝" },
        LocalizedEntry { key: "status.failed", eng: "failed", zhs: "失败" },
        LocalizedEntry { key: "choice.exhaust_card", eng: "Choose a card to Exhaust.", zhs: "选择1张牌消耗。" },
        LocalizedEntry { key: "unit.log_entries", eng: "log entries", zhs: "条日志" },
        LocalizedEntry { key: "error.card_index_starts_at_one", eng: "card index starts at 1", zhs: "手牌序号从 1 开始" },
        LocalizedEntry { key: "error.monster_index_starts_at_one", eng: "monster index starts at 1", zhs: "怪物序号从 1 开始" },
        LocalizedEntry { key: "error.language_usage", eng: "language must be eng or zhs", zhs: "语言必须是 eng 或 zhs" },
        LocalizedEntry { key: "error.no_active_combat", eng: "no active combat", zhs: "没有进行中的战斗" },
        LocalizedEntry { key: "error.not_player_action_phase", eng: "not in player action phase", zhs: "当前不是玩家行动阶段" },
        LocalizedEntry { key: "cost.energy", eng: "E", zhs: "能" },
        LocalizedEntry { key: "cost.stars", eng: "S", zhs: "星" },
        LocalizedEntry { key: "cost.unplayable", eng: "unplayable", zhs: "不能打出" },
        LocalizedEntry { key: "log.damage", eng: "damage", zhs: "伤害" },
        LocalizedEntry { key: "log.block", eng: "block", zhs: "格挡" },
        LocalizedEntry { key: "log.card_moved", eng: "card moved", zhs: "卡牌移动" },
        LocalizedEntry { key: "log.shuffled", eng: "shuffled", zhs: "洗牌" },
        LocalizedEntry { key: "log.cards", eng: "cards", zhs: "张牌" },
        LocalizedEntry { key: "log.creature_died", eng: "creature died", zhs: "单位死亡" },
        LocalizedEntry { key: "log.combat_result", eng: "combat result", zhs: "战斗结果" },
    ]
}

/// The names of monsters, powers and cards.
pub open spec fn entity_table() -> Seq<LocalizedEntry> {
    seq![
        LocalizedEntry { key: "monster.nibbit", eng: "Nibbit", zhs: "小啃兽" },
        LocalizedEntry { key: "power.strength", eng: "Strength", zhs: "力量" },
        LocalizedEntry { key: "power.vulnerable", eng: "Vulnerable", zhs: "易伤" },
        LocalizedEntry { key: "power.weak", eng: "Weak", zhs: "虚弱" },
        LocalizedEntry { key: "power.barricade", eng: "Barricade", zhs: "壁垒" },
        LocalizedEntry { key: "power.colossus", eng: "Colossus", zhs: "巨像" },
        LocalizedEntry { key: "power.corruption", eng: "Corruption", zhs: "腐化" },
        LocalizedEntry { key: "power.cruelty", eng: "Cruelty", zhs: "残酷" },
        LocalizedEntry { key: "power.free_attack", eng: "Free Attack", zhs: "免费攻击" },
        LocalizedEntry { key: "power.no_draw", eng: "No Draw", zhs: "不可抽牌" },
        LocalizedEntry { key: "power.tank", eng: "Tank", zhs: "肉盾" },
        LocalizedEntry { key: "power.unmovable", eng: "Unmovable", zhs: "不动" },
        LocalizedEntry { key: "card.AGGRESSION", eng: "Aggression", zhs: "好勇斗狠" },
        LocalizedEntry { key: "card.ANGER", eng: "Anger", zhs: "愤怒" },
        LocalizedEntry { key: "card.ARMAMENTS", eng: "Armaments", zhs: "武装" },
        LocalizedEntry { key: "card.ASHEN_STRIKE", eng: "Ashen Strike", zhs: "灰烬打击" },
        LocalizedEntry { key: "card.BARRICADE", eng: "Barricade", zhs: "壁垒" },
        LocalizedEntry { key: "card.BASH", eng: "Bash", zhs: "痛击" },
        LocalizedEntry { key: "card.BATTLE_TRANCE", eng: "Battle Trance", zhs: "战斗专注" },
        LocalizedEntry { key: "card.BLOOD_WALL", eng: "Blood Wall", zhs: "血墙" },
        LocalizedEntry { key: "card.BLOODLETTING", eng: "Bloodletting", zhs: "放血" },
        LocalizedEntry { key: "card.BLUDGEON", eng: "Bludgeon", zhs: "重锤" },
        LocalizedEntry { key: "card.BODY_SLAM", eng: "Body Slam", zhs: "全身撞击" },
        LocalizedEntry { key: "card.BRAND", eng: "Brand", zhs: "烙印" },
        LocalizedEntry { key: "card.BREAK", eng: "Break", zhs: "破击" },
        LocalizedEntry { key: "card.BREAKTHROUGH", eng: "Breakthrough", zhs: "突破" },
        LocalizedEntry { key: "card.BULLY", eng: "Bully", zhs: "欺凌" },
        LocalizedEntry { key: "card.BURNING_PACT", eng: "Burning Pact", zhs: "燃烧契约" },
        LocalizedEntry { key: "card.CASCADE", eng: "Cascade", zhs: "倾泻" },
        LocalizedEntry { key: "card.CINDER", eng: "Cinder", zhs: "余烬" },
        LocalizedEntry { key: "card.COLOSSUS", eng: "Colossus", zhs: "巨像" },
        LocalizedEntry { key: "card.CONFLAGRATION", eng: "Conflagration", zhs: "焚烧" },
        LocalizedEntry { key: "card.CORRUPTION", eng: "Corruption", zhs: "腐化" },
        LocalizedEntry { key: "card.CRIMSON_MANTLE", eng: "Crimson Mantle", zhs: "绯红披风" },
        LocalizedEntry { key: "card.CRUELTY", eng: "Cruelty", zhs: "残酷" },
        LocalizedEntry { key: "card.DARK_EMBRACE", eng: "Dark Embrace", zhs: "黑暗之拥" },
        LocalizedEntry { key: "card.DEFEND_IRONCLAD", eng: "Defend", zhs: "防御" },
        LocalizedEntry { key: "card.DEMON_FORM", eng: "Demon Form", zhs: "恶魔形态" },
        LocalizedEntry { key: "card.DEMONIC_SHIELD", eng: "Demonic Shield", zhs: "恶魔护盾" },
        LocalizedEntry { key: "card.DISMANTLE", eng: "Dismantle", zhs: "拆卸" },
        LocalizedEntry { key: "card.DOMINATE", eng: "Dominate", zhs: "主宰" },
        LocalizedEntry { key: "card.DRUM_OF_BATTLE", eng: "Drum of Battle", zhs: "战鼓" },
        LocalizedEntry { key: "card.EVIL_EYE", eng: "Evil Eye", zhs: "邪眼" },
        LocalizedEntry { key: "card.EXPECT_A_FIGHT", eng: "Expect a Fight", zhs: "跃跃欲试" },
        LocalizedEntry { key: "card.FEED", eng: "Feed", zhs: "狂宴" },
        LocalizedEntry { key: "card.FEEL_NO_PAIN", eng: "Feel No Pain", zhs: "无惧疼痛" },
        LocalizedEntry { key: "card.FIEND_FIRE", eng: "Fiend Fire", zhs: "恶魔之焰" },
        LocalizedEntry { key: "card.FIGHT_ME", eng: "Fight Me!", zhs: "与我一战！" },
        LocalizedEntry { key: "card.FLAME_BARRIER", eng: "Flame Barrier", zhs: "火焰屏障" },
        LocalizedEntry { key: "card.FORGOTTEN_RITUAL", eng: "Forgotten Ritual", zhs: "被遗忘的仪式" },
        LocalizedEntry { key: "card.HAVOC", eng: "Havoc", zhs: "破灭" },
        LocalizedEntry { key: "card.HEADBUTT", eng: "Headbutt", zhs: "头槌" },
        LocalizedEntry { key: "card.HELLRAISER", eng: "Hellraiser", zhs: "地狱狂徒" },
        LocalizedEntry { key: "card.HEMOKINESIS", eng: "Hemokinesis", zhs: "御血术" },
        LocalizedEntry { key: "card.HOWL_FROM_BEYOND", eng: "Howl from Beyond", zhs: "彼岸咆哮" },
        LocalizedEntry { key: "card.IMPERVIOUS", eng: "Impervious", zhs: "岿然不动" },
        LocalizedEntry { key: "card.INFERNAL_BLADE", eng: "Infernal Blade", zhs: "地狱之刃" },
        LocalizedEntry { key: "card.INFERNO", eng: "Inferno", zhs: "狱火" },
        LocalizedEntry { key: "card.INFLAME", eng: "Inflame", zhs: "燃烧" },
        LocalizedEntry { key: "card.IRON_WAVE", eng: "Iron Wave", zhs: "铁斩波" },
        LocalizedEntry { key: "card.JUGGERNAUT", eng: "Juggernaut", zhs: "势不可当" },
        LocalizedEntry { key: "card.JUGGLING", eng: "Juggling", zhs: "杂耍" },
        LocalizedEntry { key: "card.MANGLE", eng: "Mangle", zhs: "凌虐" },
        LocalizedEntry { key: "card.MOLTEN_FIST", eng: "Molten Fist", zhs: "熔融之拳" },
        LocalizedEntry { key: "card.NOT_YET", eng: "Not Yet", zhs: "时候未到" },
        LocalizedEntry { key: "card.OFFERING", eng: "Offering", zhs: "祭品" },
        LocalizedEntry { key: "card.ONE_TWO_PUNCH", eng: "One-Two Punch", zhs: "连环拳" },
        LocalizedEntry { key: "card.PACTS_END", eng: "Pact's End", zhs: "契约终结" },
        LocalizedEntry { key: "card.PERFECTED_STRIKE", eng: "Perfected Strike", zhs: "完美打击" },
        LocalizedEntry { key: "card.PILLAGE", eng: "Pillage", zhs: "劫掠" },
        LocalizedEntry { key: "card.POMMEL_STRIKE", eng: "Pommel Strike", zhs: "剑柄打击" },
        LocalizedEntry { key: "card.PRIMAL_FORCE", eng: "Primal Force", zhs: "原始力量" },
        LocalizedEntry { key: "card.PYRE", eng: "Pyre", zhs: "薪火之源" },
        LocalizedEntry { key: "card.RAGE", eng: "Rage", zhs: "狂怒" },
        LocalizedEntry { key: "card.RAMPAGE", eng: "Rampage", zhs: "暴走" },
        LocalizedEntry { key: "card.RUPTURE", eng: "Rupture", zhs: "撕裂" },
        LocalizedEntry { key: "card.SECOND_WIND", eng: "Second Wind", zhs: "重振精神" },
        LocalizedEntry { key: "card.SETUP_STRIKE", eng: "Setup Strike", zhs: "预备打击" },
        LocalizedEntry { key: "card.SHRUG_IT_OFF", eng: "Shrug It Off", zhs: "耸肩无视" },
        LocalizedEntry { key: "card.SPITE", eng: "Spite", zhs: "怨恨" },
        LocalizedEntry { key: "card.STAMPEDE", eng: "Stampede", zhs: "惊逃" },
        LocalizedEntry { key: "card.STOKE", eng: "Stoke", zhs: "添柴" },
        LocalizedEntry { key: "card.STOMP", eng: "Stomp", zhs: "踩踏" },
        LocalizedEntry { key: "card.STONE_ARMOR", eng: "Stone Armor", zhs: "岩石铠甲" },
        LocalizedEntry { key: "card.STRIKE_IRONCLAD", eng: "Strike", zhs: "打击" },
        LocalizedEntry { key: "card.SWORD_BOOMERANG", eng: "Sword Boomerang", zhs: "飞剑回旋镖" },
        LocalizedEntry { key: "card.TANK", eng: "Tank", zhs: "肉盾" },
        LocalizedEntry { key: "card.TAUNT", eng: "Taunt", zhs: "挑衅" },
        LocalizedEntry { key: "card.TEAR_ASUNDER", eng: "Tear Asunder", zhs: "扯碎" },
        LocalizedEntry { key: "card.THRASH", eng: "Thrash", zhs: "痛殴" },
        LocalizedEntry { key: "card.THUNDERCLAP", eng: "Thunderclap", zhs: "闪电霹雳" },
        LocalizedEntry { key: "card.TREMBLE", eng: "Tremble", zhs: "战栗" },
        LocalizedEntry { key: "card.TRUE_GRIT", eng: "True Grit", zhs: "坚毅" },
        LocalizedEntry { key: "card.TWIN_STRIKE", eng: "Twin Strike", zhs: "双重打击" },
        LocalizedEntry { key: "card.UNMOVABLE", eng: "Unmovable", zhs: "坚定不移" },
        LocalizedEntry { key: "card.UNRELENTING", eng: "Unrelenting", zhs: "无情猛攻" },
        LocalizedEntry { key: "card.UPPERCUT", eng: "Uppercut", zhs: "上勾拳" },
        LocalizedEntry { key: "card.VICIOUS", eng: "Vicious", zhs: "凶恶" },
        LocalizedEntry { key: "card.WHIRLWIND", eng: "Whirlwind", zhs: "旋风斩" },
        LocalizedEntry { key: "card.GIANT_ROCK", eng: "Giant Rock", zhs: "巨石" },
    ]
}

pub fn entity_names() -> (r: Vec<LocalizedEntry>)
    ensures
        r@ == entity_table(),
{
    vec![
        LocalizedEntry { key: "monster.nibbit", eng: "Nibbit", zhs: "小啃兽" },
        LocalizedEntry { key: "power.strength", eng: "Strength", zhs: "力量" },
        LocalizedEntry { key: "power.vulnerable", eng: "Vulnerable", zhs: "易伤" },
        LocalizedEntry { key: "power.weak", eng: "Weak", zhs: "虚弱" },
        LocalizedEntry { key: "power.barricade", eng: "Barricade", zhs: "壁垒" },
        LocalizedEntry { key: "power.colossus", eng: "Colossus", zhs: "巨像" },
        LocalizedEntry { key: "power.corruption", eng: "Corruption", zhs: "腐化" },
        LocalizedEntry { key: "power.cruelty", eng: "Cruelty", zhs: "残酷" },
        LocalizedEntry { key: "power.free_attack", eng: "Free Attack", zhs: "免费攻击" },
        LocalizedEntry { key: "power.no_draw", eng: "No Draw", zhs: "不可抽牌" },
        LocalizedEntry { key: "power.tank", eng: "Tank", zhs: "肉盾" },
        LocalizedEntry { key: "power.unmovable", eng: "Unmovable", zhs: "不动" },
        LocalizedEntry { key: "card.AGGRESSION", eng: "Aggression", zhs: "好勇斗狠" },
        LocalizedEntry { key: "card.ANGER", eng: "Anger", zhs: "愤怒" },
        LocalizedEntry { key: "card.ARMAMENTS", eng: "Armaments", zhs: "武装" },
        LocalizedEntry { key: "card.ASHEN_STRIKE", eng: "Ashen Strike", zhs: "灰烬打击" },
        LocalizedEntry { key: "card.BARRICADE", eng: "Barricade", zhs: "壁垒" },
        LocalizedEntry { key: "card.BASH", eng: "Bash", zhs: "痛击" },
        LocalizedEntry { key: "card.BATTLE_TRANCE", eng: "Battle Trance", zhs: "战斗专注" },
        LocalizedEntry { key: "card.BLOOD_WALL", eng: "Blood Wall", zhs: "血墙" },
        LocalizedEntry { key: "card.BLOODLETTING", eng: "Bloodletting", zhs: "放血" },
        LocalizedEntry { key: "card.BLUDGEON", eng: "Bludgeon", zhs: "重锤" },
        LocalizedEntry { key: "card.BODY_SLAM", eng: "Body Slam", zhs: "全身撞击" },
        LocalizedEntry { key: "card.BRAND", eng: "Brand", zhs: "烙印" },
        LocalizedEntry { key: "card.BREAK", eng: "Break", zhs: "破击" },
        LocalizedEntry { key: "card.BREAKTHROUGH", eng: "Breakthrough", zhs: "突破" },
        LocalizedEntry { key: "card.BULLY", eng: "Bully", zhs: "欺凌" },
        LocalizedEntry { key: "card.BURNING_PACT", eng: "Burning Pact", zhs: "燃烧契约" },
        LocalizedEntry { key: "card.CASCADE", eng: "Cascade", zhs: "倾泻" },
        LocalizedEntry { key: "card.CINDER", eng: "Cinder", zhs: "余烬" },
        LocalizedEntry { key: "card.COLOSSUS", eng: "Colossus", zhs: "巨像" },
        LocalizedEntry { key: "card.CONFLAGRATION", eng: "Conflagration", zhs: "焚烧" },
        LocalizedEntry { key: "card.CORRUPTION", eng: "Corruption", zhs: "腐化" },
        LocalizedEntry { key: "card.CRIMSON_MANTLE", eng: "Crimson Mantle", zhs: "绯红披风" },
        LocalizedEntry { key: "card.CRUELTY", eng: "Cruelty", zhs: "残酷" },
        LocalizedEntry { key: "card.DARK_EMBRACE", eng: "Dark Embrace", zhs: "黑暗之拥" },
        LocalizedEntry { key: "card.DEFEND_IRONCLAD", eng: "Defend", zhs: "防御" },
        LocalizedEntry { key: "card.DEMON_FORM", eng: "Demon Form", zhs: "恶魔形态" },
        LocalizedEntry { key: "card.DEMONIC_SHIELD", eng: "Demonic Shield", zhs: "恶魔护盾" },
        LocalizedEntry { key: "card.DISMANTLE", eng: "Dismantle", zhs: "拆卸" },
        LocalizedEntry { key: "card.DOMINATE", eng: "Dominate", zhs: "主宰" },
        LocalizedEntry { key: "card.DRUM_OF_BATTLE", eng: "Drum of Battle", zhs: "战鼓" },
        LocalizedEntry { key: "card.EVIL_EYE", eng: "Evil Eye", zhs: "邪眼" },
        LocalizedEntry { key: "card.EXPECT_A_FIGHT", eng: "Expect a Fight", zhs: "跃跃欲试" },
        LocalizedEntry { key: "card.FEED", eng: "Feed", zhs: "狂宴" },
        LocalizedEntry { key: "card.FEEL_NO_PAIN", eng: "Feel No Pain", zhs: "无惧疼痛" },
        LocalizedEntry { key: "card.FIEND_FIRE", eng: "Fiend Fire", zhs: "恶魔之焰" },
        LocalizedEntry { key: "card.FIGHT_ME", eng: "Fight Me!", zhs: "与我一战！" },
        LocalizedEntry { key: "card.FLAME_BARRIER", eng: "Flame Barrier", zhs: "火焰屏障" },
        LocalizedEntry { key: "card.FORGOTTEN_RITUAL", eng: "Forgotten Ritual", zhs: "被遗忘的仪式" },
        LocalizedEntry { key: "card.HAVOC", eng: "Havoc", zhs: "破灭" },
        LocalizedEntry { key: "card.HEADBUTT", eng: "Headbutt", zhs: "头槌" },
        LocalizedEntry { key: "card.HELLRAISER", eng: "Hellraiser", zhs: "地狱狂徒" },
        LocalizedEntry { key: "card.HEMOKINESIS", eng: "Hemokinesis", zhs: "御血术" },
        LocalizedEntry { key: "card.HOWL_FROM_BEYOND", eng: "Howl from Beyond", zhs: "彼岸咆哮" },
        LocalizedEntry { key: "card.IMPERVIOUS", eng: "Impervious", zhs: "岿然不动" },
        LocalizedEntry { key: "card.INFERNAL_BLADE", eng: "Infernal Blade", zhs: "地狱之刃" },
        LocalizedEntry { key: "card.INFERNO", eng: "Inferno", zhs: "狱火" },
        LocalizedEntry { key: "card.INFLAME", eng: "Inflame", zhs: "燃烧" },
        LocalizedEntry { key: "card.IRON_WAVE", eng: "Iron Wave", zhs: "铁斩波" },
        LocalizedEntry { key: "card.JUGGERNAUT", eng: "Juggernaut", zhs: "势不可当" },
        LocalizedEntry { key: "card.JUGGLING", eng: "Juggling", zhs: "杂耍" },
        LocalizedEntry { key: "card.MANGLE", eng: "Mangle", zhs: "凌虐" },
        LocalizedEntry { key: "card.MOLTEN_FIST", eng: "Molten Fist", zhs: "熔融之拳" },
        LocalizedEntry { key: "card.NOT_YET", eng: "Not Yet", zhs: "时候未到" },
        LocalizedEntry { key: "card.OFFERING", eng: "Offering", zhs: "祭品" },
        LocalizedEntry { key: "card.ONE_TWO_PUNCH", eng: "One-Two Punch", zhs: "连环拳" },
        LocalizedEntry { key: "card.PACTS_END", eng: "Pact's End", zhs: "契约终结" },
        LocalizedEntry { key: "card.PERFECTED_STRIKE", eng: "Perfected Strike", zhs: "完美打击" },
        LocalizedEntry { key: "card.PILLAGE", eng: "Pillage", zhs: "劫掠" },
        LocalizedEntry { key: "card.POMMEL_STRIKE", eng: "Pommel Strike", zhs: "剑柄打击" },
        LocalizedEntry { key: "card.PRIMAL_FORCE", eng: "Primal Force", zhs: "原始力量" },
        LocalizedEntry { key: "card.PYRE", eng: "Pyre", zhs: "薪火之源" },
        LocalizedEntry { key: "card.RAGE", eng: "Rage", zhs: "狂怒" },
        LocalizedEntry { key: "card.RAMPAGE", eng: "Rampage", zhs: "暴走" },
        LocalizedEntry { key: "card.RUPTURE", eng: "Rupture", zhs: "撕裂" },
        LocalizedEntry { key: "card.SECOND_WIND", eng: "Second Wind", zhs: "重振精神" },
        LocalizedEntry { key: "card.SETUP_STRIKE", eng: "Setup Strike", zhs: "预备打击" },
        LocalizedEntry { key: "card.SHRUG_IT_OFF", eng: "Shrug It Off", zhs: "耸肩无视" },
        LocalizedEntry { key: "card.SPITE", eng: "Spite", zhs: "怨恨" },
        LocalizedEntry { key: "card.STAMPEDE", eng: "Stampede", zhs: "惊逃" },
        LocalizedEntry { key: "card.STOKE", eng: "Stoke", zhs: "添柴" },
        LocalizedEntry { key: "card.STOMP", eng: "Stomp", zhs: "踩踏" },
        LocalizedEntry { key: "card.STONE_ARMOR", eng: "Stone Armor", zhs: "岩石铠甲" },
        LocalizedEntry { key: "card.STRIKE_IRONCLAD", eng: "Strike", zhs: "打击" },
        LocalizedEntry { key: "card.SWORD_BOOMERANG", eng: "Sword Boomerang", zhs: "飞剑回旋镖" },
        LocalizedEntry { key: "card.TANK", eng: "Tank", zhs: "肉盾" },
        LocalizedEntry { key: "card.TAUNT", eng: "Taunt", zhs: "挑衅" },
        LocalizedEntry { key: "card.TEAR_ASUNDER", eng: "Tear Asunder", zhs: "扯碎" },
        LocalizedEntry { key: "card.THRASH", eng: "Thrash", zhs: "痛殴" },
        LocalizedEntry { key: "card.THUNDERCLAP", eng: "Thunderclap", zhs: "闪电霹雳" },
        LocalizedEntry { key: "card.TREMBLE", eng: "Tremble", zhs: "战栗" },
        LocalizedEntry { key: "card.TRUE_GRIT", eng: "True Grit", zhs: "坚毅" },
        LocalizedEntry { key: "card.TWIN_STRIKE", eng: "Twin Strike", zhs: "双重打击" },
        LocalizedEntry { key: "card.UNMOVABLE", eng: "Unmovable", zhs: "坚定不移" },
        LocalizedEntry { key: "card.UNRELENTING", eng: "Unrelenting", zhs: "无情猛攻" },
        LocalizedEntry { key: "card.UPPERCUT", eng: "Uppercut", zhs: "上勾拳" },
        LocalizedEntry { key: "card.VICIOUS", eng: "Vicious", zhs: "凶恶" },
        LocalizedEntry { key: "card.WHIRLWIND", eng: "Whirlwind", zhs: "旋风斩" },
        LocalizedEntry { key: "card.GIANT_ROCK", eng: "Giant Rock", zhs: "巨石" },
    ]
}

} // verus!
