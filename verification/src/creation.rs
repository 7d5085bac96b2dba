//! NPC generation: weighted random selection of a character template from a
//! dungeon's rule set and a target floor level, and construction of a fresh
//! character from the selected template.
//!
//! Weights are exact rationals over the fixed denominator `5 * floor *
//! gen_weight_unit * affinity_unit`: every per-template weight is kept as an
//! integer numerator, so selection is exact and free of rounding drift.

use crate::chara::{
    Chara, CharaAI, CharaAttributes, CharaBaseAttr, CharaClass, CharaStatus, CharaTemplateIdx,
    EquipItemList, ItemList, NpcAIKind, Race, Relationship, SkillList,
};
use vstd::prelude::*;

verus! {

/// Static, read-only template of a character archetype.
#[derive(Clone, Copy, PartialEq, Eq, Structural, Debug)]
pub struct CharaTemplate {
    pub race: Race,
    /// Floor depth at which this template is native.
    pub gen_level: u32,
    /// Base selection weight during generation.
    pub gen_weight: u16,
    pub max_hp: i32,
    pub strength: u16,
    pub vitality: u16,
    pub dexterity: u16,
    pub intelligence: u16,
    pub will: u16,
    pub charisma: u16,
    pub speed: u16,
    /// Range of view in tiles.
    pub view_range: i32,
}

impl CharaTemplate {
    /// The template's stats all fit the signed base-attribute fields.
    pub open spec fn base_fits(self) -> bool {
        &&& self.strength <= 0x7FFF
        &&& self.vitality <= 0x7FFF
        &&& self.dexterity <= 0x7FFF
        &&& self.intelligence <= 0x7FFF
        &&& self.will <= 0x7FFF
        &&& self.charisma <= 0x7FFF
        &&& self.speed <= 0x7FFF
    }

    /// The base attributes this template declares.
    pub open spec fn spec_base(self) -> CharaBaseAttr {
        CharaBaseAttr {
            base_hp: self.max_hp,
            strength: self.strength as i16,
            vitality: self.vitality as i16,
            dexterity: self.dexterity as i16,
            intelligence: self.intelligence as i16,
            will: self.will as i16,
            charisma: self.charisma as i16,
            speed: self.speed as i16,
        }
    }

    /// Base attributes of a character generated from this template: exactly
    /// the declared base values. No level scaling happens at this layer;
    /// leveling logic outside this core applies it, so the level argument
    /// only fixes the level the values are computed for.
    pub fn derive_base(&self, _level: u32) -> (b: CharaBaseAttr)
        requires
            self.base_fits(),
        ensures
            b == self.spec_base(),
    {
        CharaBaseAttr {
            base_hp: self.max_hp,
            strength: self.strength as i16,
            vitality: self.vitality as i16,
            dexterity: self.dexterity as i16,
            intelligence: self.intelligence as i16,
            will: self.will as i16,
            charisma: self.charisma as i16,
            speed: self.speed as i16,
        }
    }
}

/// The kinds of dungeon a map can belong to.
#[derive(Clone, Copy, PartialEq, Eq, Structural, Hash, Debug)]
pub enum DungeonKind {
    Cave,
    Ruin,
}

/// Affinity of one race under a dungeon's generation rules, in thousandths:
/// 1000 stands for an affinity of one.
#[derive(Clone, Copy, PartialEq, Eq, Structural, Debug)]
pub struct RaceWeight {
    pub race: Race,
    pub weight: u32,
}

/// Generation rules of one dungeon kind.
#[derive(Clone, PartialEq, Debug)]
pub struct DungeonGenParams {
    pub kind: DungeonKind,
    /// Race to affinity weight, in thousandths; a race without an entry
    /// cannot be generated.
    pub npc_race_probability: Vec<RaceWeight>,
}

/// The generation rule table, keyed by dungeon kind.
#[derive(Clone, PartialEq, Debug)]
pub struct DungeonGenRules {
    pub entries: Vec<DungeonGenParams>,
}

/// Affinity of `race` in `pr` from position `i` on: the first entry for the
/// race decides; an absent race has affinity zero.
pub open spec fn affinity_from(pr: Seq<RaceWeight>, race: Race, i: int) -> int
    decreases pr.len() - i,
{
    if i < 0 || i >= pr.len() {
        0
    } else if pr[i].race == race {
        pr[i].weight as int
    } else {
        affinity_from(pr, race, i + 1)
    }
}

/// Affinity of `race` under the rule entries `pr`, in thousandths.
pub open spec fn spec_affinity(pr: Seq<RaceWeight>, race: Race) -> int {
    affinity_from(pr, race, 0)
}

proof fn lemma_affinity_bound(pr: Seq<RaceWeight>, race: Race, i: int)
    ensures
        0 <= affinity_from(pr, race, i) <= 0xFFFF_FFFF,
    decreases pr.len() - i,
{
    if 0 <= i < pr.len() && pr[i].race != race {
        lemma_affinity_bound(pr, race, i + 1);
    }
}

impl DungeonGenParams {
    /// Affinity weight of `race` under these rules, in thousandths; zero if
    /// the rules declare no entry for the race.
    pub fn race_affinity(&self, race: Race) -> (w: u32)
        ensures
            w as int == spec_affinity(self.npc_race_probability@, race),
    {
        let pr = &self.npc_race_probability;
        let mut i: usize = 0;
        while i < pr.len()
            invariant
                0 <= i <= pr.len(),
                pr@ == self.npc_race_probability@,
                affinity_from(pr@, race, 0) == affinity_from(pr@, race, i as int),
            decreases pr.len() - i,
        {
            if pr[i].race == race {
                proof {
                    assert(affinity_from(pr@, race, i as int) == pr@[i as int].weight as int);
                }
                return pr[i].weight;
            }
            i += 1;
        }
        0
    }
}

/// There is a rule entry for `kind`.
pub open spec fn spec_has_rule(s: Seq<DungeonGenParams>, kind: DungeonKind) -> bool {
    exists|i: int| 0 <= i < s.len() && s[i].kind == kind
}

/// Position of the first rule entry for `kind` at or after `i`; the length
/// when there is none.
pub open spec fn rule_index_from(s: Seq<DungeonGenParams>, kind: DungeonKind, i: int) -> int
    decreases s.len() - i,
{
    if i < 0 || i >= s.len() {
        s.len() as int
    } else if s[i].kind == kind {
        i
    } else {
        rule_index_from(s, kind, i + 1)
    }
}

/// The rule entry that decides generation for `kind`: the first one.
pub open spec fn spec_rule(s: Seq<DungeonGenParams>, kind: DungeonKind) -> DungeonGenParams {
    s[rule_index_from(s, kind, 0)]
}

impl DungeonGenRules {
    /// The rule entry for `kind`, if the table has one. A missing rule is a
    /// content-authoring defect that callers surface at once.
    pub fn get(&self, kind: DungeonKind) -> (r: Option<&DungeonGenParams>)
        ensures
            match r {
                Some(p) => spec_has_rule(self.entries@, kind) && *p == spec_rule(
                    self.entries@,
                    kind,
                ),
                None => !spec_has_rule(self.entries@, kind),
            },
    {
        let s = &self.entries;
        let mut i: usize = 0;
        while i < s.len()
            invariant
                0 <= i <= s.len(),
                s@ == self.entries@,
                rule_index_from(s@, kind, 0) == rule_index_from(s@, kind, i as int),
                forall|j: int| 0 <= j < i ==> s@[j].kind != kind,
            decreases s.len() - i,
        {
            if s[i].kind == kind {
                proof {
                    assert(spec_has_rule(s@, kind));
                    assert(rule_index_from(s@, kind, i as int) == i as int);
                }
                return Some(&s[i]);
            }
            i += 1;
        }
        None
    }
}

/// Numerator of the triangular level weight, over the fixed denominator
/// `5 * floor`: rises linearly from zero to the denominator at
/// `gen_level == floor`, falls linearly to zero over a margin of five levels
/// above, and stays zero beyond.
pub open spec fn spec_level_weight_num(floor: int, l: int) -> int {
    if l <= floor {
        5 * l
    } else if l <= floor + 5 {
        (floor + 5 - l) * floor
    } else {
        0
    }
}

/// Numerator of the level weight of `gen_level` on floor `floor_level`,
/// over the denominator `5 * floor_level`.
pub fn level_weight_num(floor_level: u32, gen_level: u32) -> (w: u64)
    ensures
        w as int == spec_level_weight_num(floor_level as int, gen_level as int),
        w <= 0x4_FFFF_FFFB,
{
    let f = floor_level as u64;
    let l = gen_level as u64;
    if l <= f {
        5 * l
    } else if l <= f + 5 {
        proof {
            assert((f + 5 - l) * f <= 4 * 0xFFFF_FFFF) by (nonlinear_arith)
                requires
                    f + 5 - l <= 4,
                    0 <= f <= 0xFFFF_FFFF,
            ;
        }
        (f + 5 - l) * f
    } else {
        0
    }
}

/// Denominator of the level weight on floor `floor_level`.
pub fn level_weight_den(floor_level: u32) -> (d: u64)
    ensures
        d as int == 5 * (floor_level as int),
{
    5 * (floor_level as u64)
}

/// The shape of the level weight: exactly one (numerator equals denominator)
/// at the native level of a positive floor, zero at and above the margin's
/// end, nonnegative everywhere, rising up to the peak and falling above it.
pub proof fn lemma_level_weight_shape(floor: int, l1: int, l2: int)
    requires
        0 <= floor,
        0 <= l1,
        0 <= l2,
    ensures
        floor > 0 ==> spec_level_weight_num(floor, floor) == 5 * floor,
        l1 >= floor + 5 ==> spec_level_weight_num(floor, l1) == 0,
        spec_level_weight_num(floor, l1) >= 0,
        l1 <= l2 <= floor ==> spec_level_weight_num(floor, l1) <= spec_level_weight_num(floor, l2),
        floor <= l1 <= l2 ==> spec_level_weight_num(floor, l1) >= spec_level_weight_num(floor, l2),
{
    if l1 > floor && l1 <= floor + 5 {
        assert((floor + 5 - l1) * floor >= 0) by (nonlinear_arith)
            requires
                floor + 5 - l1 >= 0,
                floor >= 0,
        ;
        if l1 == floor + 5 {
            assert((floor + 5 - l1) * floor == 0) by (nonlinear_arith)
                requires
                    floor + 5 - l1 == 0,
            ;
        }
    }
    if floor <= l1 <= l2 {
        if l1 <= floor && l2 <= floor + 5 && l2 > floor {
            assert((floor + 5 - l2) * floor <= 5 * floor) by (nonlinear_arith)
                requires
                    floor + 5 - l2 <= 5,
                    floor >= 0,
            ;
        }
        if l1 > floor && l2 <= floor + 5 {
            assert((floor + 5 - l1) * floor >= (floor + 5 - l2) * floor) by (nonlinear_arith)
                requires
                    floor + 5 - l1 >= floor + 5 - l2,
                    floor >= 0,
            ;
        }
        if l1 > floor && l1 <= floor + 5 && l2 > floor + 5 {
            assert((floor + 5 - l1) * floor >= 0) by (nonlinear_arith)
                requires
                    floor + 5 - l1 >= 0,
                    floor >= 0,
            ;
        }
    }
}

/// Per-template selection weight: the level weight numerator times the
/// template's generation weight times the race affinity; zero for a template
/// whose race the rules give no positive affinity.
pub open spec fn spec_template_weight(floor: int, pr: Seq<RaceWeight>, t: CharaTemplate) -> int {
    if spec_affinity(pr, t.race) > 0 {
        spec_level_weight_num(floor, t.gen_level as int) * (t.gen_weight as int) * spec_affinity(
            pr,
            t.race,
        )
    } else {
        0
    }
}

/// Sum of the selection weights of the first `n` templates.
pub open spec fn spec_weight_sum(
    floor: int,
    pr: Seq<RaceWeight>,
    ts: Seq<CharaTemplate>,
    n: int,
) -> int
    decreases n,
{
    if n <= 0 {
        0
    } else {
        spec_weight_sum(floor, pr, ts, n - 1) + spec_template_weight(floor, pr, ts[n - 1])
    }
}

/// Sum of the selection weights of all templates.
pub open spec fn spec_total_weight(floor: int, pr: Seq<RaceWeight>, ts: Seq<CharaTemplate>) -> int {
    spec_weight_sum(floor, pr, ts, ts.len() as int)
}

proof fn lemma_level_weight_num_bound(floor: int, l: int)
    requires
        0 <= floor <= 0xFFFF_FFFF,
        0 <= l <= 0xFFFF_FFFF,
    ensures
        0 <= spec_level_weight_num(floor, l) <= 0x4_FFFF_FFFB,
{
    if l > floor && l <= floor + 5 {
        assert(0 <= (floor + 5 - l) * floor <= 4 * 0xFFFF_FFFF) by (nonlinear_arith)
            requires
                0 <= floor + 5 - l <= 4,
                0 <= floor <= 0xFFFF_FFFF,
        ;
    }
}

/// Bound on one template's weight: below `2^83`.
proof fn lemma_template_weight_bound(floor: int, pr: Seq<RaceWeight>, t: CharaTemplate)
    requires
        0 <= floor <= 0xFFFF_FFFF,
    ensures
        0 <= spec_template_weight(floor, pr, t) < 0x8_0000_0000_0000_0000_0000,
{
    lemma_affinity_bound(pr, t.race, 0);
    lemma_level_weight_num_bound(floor, t.gen_level as int);
    let lw = spec_level_weight_num(floor, t.gen_level as int);
    let gw = t.gen_weight as int;
    let af = spec_affinity(pr, t.race);
    if af > 0 {
        assert(0 <= lw * gw && lw * gw <= 0x4_FFFF_FFFBint * 0xFFFF) by (nonlinear_arith)
            requires
                0 <= lw <= 0x4_FFFF_FFFBint,
                0 <= gw <= 0xFFFF,
        ;
        assert(0 <= (lw * gw) * af && (lw * gw) * af < 0x8_0000_0000_0000_0000_0000)
            by (nonlinear_arith)
            requires
                0 <= lw * gw <= 0x4_FFFF_FFFBint * 0xFFFF,
                0 < af <= 0xFFFF_FFFF,
        ;
    }
}

/// Bounds on a prefix sum of weights: nonnegative, monotone in the prefix
/// length, and below `n * 2^83`.
proof fn lemma_weight_sum_bound(floor: int, pr: Seq<RaceWeight>, ts: Seq<CharaTemplate>, n: int)
    requires
        0 <= floor <= 0xFFFF_FFFF,
        0 <= n <= ts.len(),
    ensures
        0 <= spec_weight_sum(floor, pr, ts, n) <= n * 0x8_0000_0000_0000_0000_0000,
        spec_weight_sum(floor, pr, ts, n) <= spec_total_weight(floor, pr, ts),
    decreases ts.len() - n,
{
    lemma_weight_sum_prefix_bound(floor, pr, ts, n);
    if n == ts.len() {
    } else {
        lemma_template_weight_bound(floor, pr, ts[n]);
        lemma_weight_sum_bound(floor, pr, ts, n + 1);
    }
}

proof fn lemma_weight_sum_prefix_bound(
    floor: int,
    pr: Seq<RaceWeight>,
    ts: Seq<CharaTemplate>,
    n: int,
)
    requires
        0 <= floor <= 0xFFFF_FFFF,
        0 <= n <= ts.len(),
    ensures
        0 <= spec_weight_sum(floor, pr, ts, n) <= n * 0x8_0000_0000_0000_0000_0000,
    decreases n,
{
    if n > 0 {
        lemma_weight_sum_prefix_bound(floor, pr, ts, n - 1);
        lemma_template_weight_bound(floor, pr, ts[n - 1]);
        assert((n - 1) * 0x8_0000_0000_0000_0000_0000 + 0x8_0000_0000_0000_0000_0000 == n
            * 0x8_0000_0000_0000_0000_0000) by (nonlinear_arith);
    }
}

/// The index that a draw of `r` selects: the first position whose cumulative
/// weight exceeds `r`; the length when no prefix does.
pub open spec fn spec_select_from(
    floor: int,
    pr: Seq<RaceWeight>,
    ts: Seq<CharaTemplate>,
    r: int,
    i: int,
) -> int
    decreases ts.len() - i,
{
    if i < 0 || i >= ts.len() {
        ts.len() as int
    } else if r < spec_weight_sum(floor, pr, ts, i + 1) {
        i
    } else {
        spec_select_from(floor, pr, ts, r, i + 1)
    }
}

/// The index selected by a draw of `r` over the whole template table.
pub open spec fn spec_selected(floor: int, pr: Seq<RaceWeight>, ts: Seq<CharaTemplate>, r: int) -> int {
    spec_select_from(floor, pr, ts, r, 0)
}

/// Some template's race has positive affinity under `pr`.
pub open spec fn spec_any_eligible(pr: Seq<RaceWeight>, ts: Seq<CharaTemplate>) -> bool {
    exists|i: int| 0 <= i < ts.len() && spec_affinity(pr, ts[i].race) > 0
}

/// Position of the first template at or after `i` whose race has positive
/// affinity; the length when there is none.
pub open spec fn first_eligible_from(pr: Seq<RaceWeight>, ts: Seq<CharaTemplate>, i: int) -> int
    decreases ts.len() - i,
{
    if i < 0 || i >= ts.len() {
        ts.len() as int
    } else if spec_affinity(pr, ts[i].race) > 0 {
        i
    } else {
        first_eligible_from(pr, ts, i + 1)
    }
}

/// The deterministic fallback: the first template with positive affinity.
pub open spec fn spec_first_eligible(pr: Seq<RaceWeight>, ts: Seq<CharaTemplate>) -> int {
    first_eligible_from(pr, ts, 0)
}

/// The index `i` is one that `choose_npc_chara_template` can return: chosen
/// by some draw under a positive total weight, or the deterministic fallback
/// under a zero one; either way its race has positive affinity.
pub open spec fn spec_npc_choice(
    floor: int,
    pr: Seq<RaceWeight>,
    ts: Seq<CharaTemplate>,
    i: int,
) -> bool {
    let total = spec_total_weight(floor, pr, ts);
    &&& 0 <= i < ts.len()
    &&& spec_affinity(pr, ts[i].race) > 0
    &&& (total > 0 ==> exists|r: int| 0 <= r < total && i == spec_selected(floor, pr, ts, r))
    &&& (total == 0 ==> i == spec_first_eligible(pr, ts))
}

/// Relies on rand::Rng::gen_range over the half-open integer range
/// `0..bound`: it returns a value of that range, uniformly distributed, and
/// panics only when the range is empty. Nothing is assumed about which value
/// of the range comes back.
#[verifier::external_body]
fn draw_below(bound: u128) -> (r: u128)
    requires
        bound > 0,
    ensures
        r < bound,
{
    rand::Rng::gen_range(&mut rand::thread_rng(), 0..bound)
}

/// Selection weight of `t` on floor `floor_level` under the rules `params`,
/// as an exact integer numerator.
fn template_weight(floor_level: u32, params: &DungeonGenParams, t: &CharaTemplate) -> (w: u128)
    ensures
        w as int == spec_template_weight(
            floor_level as int,
            params.npc_race_probability@,
            *t,
        ),
        w < 0x8_0000_0000_0000_0000_0000,
{
    proof {
        lemma_template_weight_bound(floor_level as int, params.npc_race_probability@, *t);
    }
    let a = params.race_affinity(t.race);
    if a == 0 {
        0
    } else {
        let lw = level_weight_num(floor_level, t.gen_level);
        proof {
            assert(0 <= (lw as int) * (t.gen_weight as int) && (lw as int) * (t.gen_weight
                as int) <= 0x4_FFFF_FFFBint * 0xFFFF) by (nonlinear_arith)
                requires
                    0 <= lw as int <= 0x4_FFFF_FFFBint,
                    0 <= t.gen_weight as int <= 0xFFFF,
            ;
            assert(0 <= ((lw as int) * (t.gen_weight as int)) * (a as int) && ((lw as int) * (
            t.gen_weight as int)) * (a as int) < 0x8_0000_0000_0000_0000_0000)
                by (nonlinear_arith)
                requires
                    0 <= (lw as int) * (t.gen_weight as int) <= 0x4_FFFF_FFFBint * 0xFFFF,
                    0 <= a as int <= 0xFFFF_FFFF,
            ;
        }
        (lw as u128) * (t.gen_weight as u128) * (a as u128)
    }
}

/// Chooses one template index by weighted random selection: the per-template
/// weight is the level weight times the template's generation weight times
/// its race's affinity; a zero-weight pool falls back deterministically to
/// the first template with positive affinity.
pub fn choose_npc_chara_template(
    rules: &DungeonGenRules,
    templates: &Vec<CharaTemplate>,
    dungeon: DungeonKind,
    floor_level: u32,
) -> (idx: CharaTemplateIdx)
    requires
        spec_has_rule(rules.entries@, dungeon),
        spec_any_eligible(
            spec_rule(rules.entries@, dungeon).npc_race_probability@,
            templates@,
        ),
        templates@.len() <= 0xFFFF_FFFF,
    ensures
        spec_npc_choice(
            floor_level as int,
            spec_rule(rules.entries@, dungeon).npc_race_probability@,
            templates@,
            idx.0 as int,
        ),
{
    let params = match rules.get(dungeon) {
        Some(p) => p,
        None => vstd::pervasive::unreached(),
    };
    let ghost pr = params.npc_race_probability@;
    let ghost floor = floor_level as int;
    let ghost ts = templates@;

    // Sum up the selection weights of the whole table.
    let mut sum: u128 = 0;
    let mut i: usize = 0;
    while i < templates.len()
        invariant
            0 <= i <= ts.len(),
            ts.len() <= 0xFFFF_FFFF,
            0 <= floor <= 0xFFFF_FFFF,
            floor == floor_level as int,
            ts == templates@,
            pr == params.npc_race_probability@,
            sum as int == spec_weight_sum(floor, pr, ts, i as int),
            sum <= (i as int) * 0x8_0000_0000_0000_0000_0000,
        decreases ts.len() - i,
    {
        let w = template_weight(floor_level, params, &templates[i]);
        proof {
            assert((i as int) * 0x8_0000_0000_0000_0000_0000 + 0x8_0000_0000_0000_0000_0000 == (i
                + 1) * 0x8_0000_0000_0000_0000_0000) by (nonlinear_arith);
            assert((i + 1) * 0x8_0000_0000_0000_0000_0000 <= 0x1_0000_0000int
                * 0x8_0000_0000_0000_0000_0000) by (nonlinear_arith)
                requires
                    i + 1 <= 0x1_0000_0000int,
            ;
        }
        sum = sum + w;
        i += 1;
    }

    if sum == 0 {
        // Deterministic fallback: the first template with positive affinity.
        let mut i: usize = 0;
        while i < templates.len()
            invariant
                0 <= i <= ts.len(),
                ts.len() <= 0xFFFF_FFFF,
                0 <= floor <= 0xFFFF_FFFF,
                floor == floor_level as int,
                ts == templates@,
                pr == params.npc_race_probability@,
                pr == spec_rule(rules.entries@, dungeon).npc_race_probability@,
                spec_total_weight(floor, pr, ts) == 0,
                spec_any_eligible(pr, ts),
                spec_first_eligible(pr, ts) == first_eligible_from(pr, ts, i as int),
                forall|j: int| 0 <= j < i ==> spec_affinity(pr, ts[j].race) <= 0,
            decreases ts.len() - i,
        {
            if params.race_affinity(templates[i].race) > 0 {
                proof {
                    assert(first_eligible_from(pr, ts, i as int) == i as int);
                }
                return CharaTemplateIdx(i as u32);
            }
            i += 1;
        }
        proof {
            let e = choose|j: int| 0 <= j < ts.len() && spec_affinity(pr, ts[j].race) > 0;
            assert(spec_affinity(pr, ts[e].race) <= 0);
        }
        vstd::pervasive::unreached()
    } else {
        // Roulette selection: walk the table accumulating weights and return
        // the first template whose cumulative weight exceeds the draw.
        let r = draw_below(sum);
        let mut cum: u128 = 0;
        let mut i: usize = 0;
        while i < templates.len()
            invariant
                0 <= i <= ts.len(),
                ts.len() <= 0xFFFF_FFFF,
                0 <= floor <= 0xFFFF_FFFF,
                floor == floor_level as int,
                ts == templates@,
                pr == params.npc_race_probability@,
                pr == spec_rule(rules.entries@, dungeon).npc_race_probability@,
                sum as int == spec_total_weight(floor, pr, ts),
                cum as int == spec_weight_sum(floor, pr, ts, i as int),
                (r as int) < spec_total_weight(floor, pr, ts),
                (r as int) >= spec_weight_sum(floor, pr, ts, i as int),
                spec_selected(floor, pr, ts, r as int) == spec_select_from(
                    floor,
                    pr,
                    ts,
                    r as int,
                    i as int,
                ),
            decreases ts.len() - i,
        {
            let w = template_weight(floor_level, params, &templates[i]);
            proof {
                lemma_weight_sum_bound(floor, pr, ts, i as int + 1);
            }
            cum = cum + w;
            if r < cum {
                proof {
                    assert(spec_weight_sum(floor, pr, ts, i as int + 1) == spec_weight_sum(
                        floor,
                        pr,
                        ts,
                        i as int,
                    ) + spec_template_weight(floor, pr, ts[i as int]));
                    assert(spec_affinity(pr, ts[i as int].race) > 0) by {
                        if spec_affinity(pr, ts[i as int].race) <= 0 {
                            assert(spec_template_weight(floor, pr, ts[i as int]) == 0);
                        }
                    }
                    assert(spec_select_from(floor, pr, ts, r as int, i as int) == i as int);
                    assert(spec_selected(floor, pr, ts, r as int) == i as int);
                    assert(0 <= r as int && (r as int) < spec_total_weight(floor, pr, ts));
                }
                return CharaTemplateIdx(i as u32);
            }
            i += 1;
        }
        proof {
            assert(false);
        }
        vstd::pervasive::unreached()
    }
}

/// The attributes that a freshly created character draws from its template.
pub open spec fn spec_attr_of_template(t: CharaTemplate) -> CharaAttributes {
    CharaAttributes {
        max_hp: t.max_hp,
        strength: t.strength,
        vitality: t.vitality,
        dexterity: t.dexterity,
        intelligence: t.intelligence,
        will: t.will,
        charisma: t.charisma,
        speed: t.speed,
        view_range: t.view_range,
    }
}

/// `c` is a character freshly built from template `t` at index `idx`:
/// attributes copied from the template, full hit points, level one, default
/// inventory, equipment, AI and class, and no talk trigger. The disposition
/// is left to the caller's contract.
pub open spec fn spec_created_from(c: Chara, t: CharaTemplate, idx: CharaTemplateIdx) -> bool {
    &&& c.name is None
    &&& c.attr == spec_attr_of_template(t)
    &&& c.template == idx
    &&& c.class == CharaClass::Civilian
    &&& c.level == 1
    &&& c.item_list.items@ == Seq::<u64>::empty()
    &&& c.equip.items@ == Seq::<u64>::empty()
    &&& c.wait_time == crate::WAIT_TIME_NUMERATOR
    &&& c.ai == (CharaAI { kind: NpcAIKind::NoAction })
    &&& c.hp == t.max_hp
    &&& c.sp == 0
    &&& c.status@ == Seq::<CharaStatus>::empty()
    &&& c.skills.skills@ == Seq::<u64>::empty()
    &&& c.trigger_talk is None
}

/// Creates a character from the template at `idx`: attributes equal the
/// template's base values, hit points start full, and the disposition starts
/// neutral.
pub fn create_chara(templates: &Vec<CharaTemplate>, idx: CharaTemplateIdx) -> (c: Chara)
    requires
        (idx.0 as int) < templates@.len(),
    ensures
        spec_created_from(c, templates@[idx.0 as int], idx),
        c.rel == Relationship::NEUTRAL,
{
    let t = &templates[idx.0 as usize];
    Chara {
        name: None,
        attr: CharaAttributes {
            max_hp: t.max_hp,
            strength: t.strength,
            vitality: t.vitality,
            dexterity: t.dexterity,
            intelligence: t.intelligence,
            will: t.will,
            charisma: t.charisma,
            speed: t.speed,
            view_range: t.view_range,
        },
        template: idx,
        class: CharaClass::Civilian,
        level: 1,
        item_list: ItemList::new(),
        equip: EquipItemList::new(),
        wait_time: crate::WAIT_TIME_NUMERATOR,
        ai: CharaAI { kind: NpcAIKind::NoAction },
        hp: t.max_hp,
        sp: 0,
        status: Vec::new(),
        skills: SkillList::new(),
        rel: Relationship::NEUTRAL,
        trigger_talk: None,
    }
}

/// Creates an NPC for `dungeon` at `floor_level`: chooses a template by
/// weighted random selection, builds the character from it, and sets the
/// disposition hostile. Hit points always start at the attribute maximum.
pub fn create_npc_chara(
    rules: &DungeonGenRules,
    templates: &Vec<CharaTemplate>,
    dungeon: DungeonKind,
    floor_level: u32,
) -> (c: Chara)
    requires
        spec_has_rule(rules.entries@, dungeon),
        spec_any_eligible(
            spec_rule(rules.entries@, dungeon).npc_race_probability@,
            templates@,
        ),
        templates@.len() <= 0xFFFF_FFFF,
    ensures
        c.rel == Relationship::HOSTILE,
        c.hp == c.attr.max_hp,
        exists|i: int|
            #![auto]
            spec_npc_choice(
                floor_level as int,
                spec_rule(rules.entries@, dungeon).npc_race_probability@,
                templates@,
                i,
            ) && c.template == CharaTemplateIdx(i as u32) && spec_created_from(
                c,
                templates@[i],
                CharaTemplateIdx(i as u32),
            ),
{
    let idx = choose_npc_chara_template(rules, templates, dungeon, floor_level);
    let mut chara = create_chara(templates, idx);
    chara.rel = Relationship::HOSTILE;
    proof {
        let i = idx.0 as int;
        assert(spec_npc_choice(
            floor_level as int,
            spec_rule(rules.entries@, dungeon).npc_race_probability@,
            templates@,
            i,
        ) && chara.template == CharaTemplateIdx(i as u32) && spec_created_from(
            chara,
            templates@[i],
            CharaTemplateIdx(i as u32),
        ));
    }
    chara
}

proof fn lemma_sum_zero_but_k(
    floor: int,
    pr: Seq<RaceWeight>,
    ts: Seq<CharaTemplate>,
    k: int,
    n: int,
)
    requires
        0 <= k < ts.len(),
        0 <= n <= ts.len(),
        forall|j: int| 0 <= j < ts.len() && j != k ==> spec_affinity(pr, ts[j].race) <= 0,
    ensures
        spec_weight_sum(floor, pr, ts, n) == if n <= k {
            0int
        } else {
            spec_template_weight(floor, pr, ts[k])
        },
    decreases n,
{
    if n > 0 {
        lemma_sum_zero_but_k(floor, pr, ts, k, n - 1);
    }
}

proof fn lemma_select_hits_k(
    floor: int,
    pr: Seq<RaceWeight>,
    ts: Seq<CharaTemplate>,
    k: int,
    r: int,
    i: int,
)
    requires
        0 <= i <= k < ts.len(),
        forall|j: int| 0 <= j < ts.len() && j != k ==> spec_affinity(pr, ts[j].race) <= 0,
        0 <= r < spec_template_weight(floor, pr, ts[k]),
    ensures
        spec_select_from(floor, pr, ts, r, i) == k,
    decreases k - i,
{
    lemma_sum_zero_but_k(floor, pr, ts, k, i + 1);
    if i < k {
        lemma_select_hits_k(floor, pr, ts, k, r, i + 1);
    }
}

/// Over a rule set under which exactly one template is eligible, and its
/// computed weight is positive, every possible draw selects that template.
pub proof fn lemma_single_eligible_always_selected(
    floor: int,
    pr: Seq<RaceWeight>,
    ts: Seq<CharaTemplate>,
    k: int,
    r: int,
)
    requires
        0 <= k < ts.len(),
        spec_template_weight(floor, pr, ts[k]) > 0,
        forall|j: int| 0 <= j < ts.len() && j != k ==> spec_affinity(pr, ts[j].race) <= 0,
        0 <= r < spec_total_weight(floor, pr, ts),
    ensures
        spec_selected(floor, pr, ts, r) == k,
        spec_total_weight(floor, pr, ts) == spec_template_weight(floor, pr, ts[k]),
{
    lemma_sum_zero_but_k(floor, pr, ts, k, ts.len() as int);
    lemma_select_hits_k(floor, pr, ts, k, r, 0);
}

} // verus!
