//! Character data: races, classes, the disposition algebra, attributes and
//! their revision, identities, and the aggregate character record.

use vstd::prelude::*;

verus! {

/// Character's races.
#[derive(Clone, Copy, PartialEq, Eq, Structural, Hash, Debug)]
pub enum Race {
    Animal,
    Human,
    Bug,
    Slime,
    Devil,
    Phantom,
    Specter,
}

/// Character classes.
#[derive(Clone, Copy, PartialEq, Eq, Structural, Hash, Debug)]
pub enum CharaClass {
    NoClass,
    Adventurer,
    Rogue,
    Sorcerer,
    Warrior,
    Civilian,
}

impl Default for CharaClass {
    /// NPCs without an explicit class are civilians.
    fn default() -> (r: CharaClass)
        ensures
            r == CharaClass::Civilian,
    {
        CharaClass::Civilian
    }
}

/// Disposition of one character toward another.
#[derive(Clone, Copy, PartialEq, Eq, Structural, Debug)]
pub enum Relationship {
    ALLY,
    FRIENDLY,
    NEUTRAL,
    HOSTILE,
}

impl Relationship {
    /// The fixed composition table: the first value is the base disposition,
    /// the second the situational modifier.
    pub open spec fn spec_relative(self, other: Relationship) -> Relationship {
        match (self, other) {
            (Relationship::ALLY, o) => o,
            (Relationship::FRIENDLY, Relationship::ALLY) => Relationship::FRIENDLY,
            (Relationship::FRIENDLY, Relationship::FRIENDLY) => Relationship::FRIENDLY,
            (Relationship::FRIENDLY, Relationship::NEUTRAL) => Relationship::NEUTRAL,
            (Relationship::FRIENDLY, Relationship::HOSTILE) => Relationship::HOSTILE,
            (Relationship::NEUTRAL, _) => Relationship::NEUTRAL,
            (Relationship::HOSTILE, Relationship::ALLY) => Relationship::HOSTILE,
            (Relationship::HOSTILE, Relationship::FRIENDLY) => Relationship::HOSTILE,
            (Relationship::HOSTILE, Relationship::NEUTRAL) => Relationship::NEUTRAL,
            (Relationship::HOSTILE, Relationship::HOSTILE) => Relationship::FRIENDLY,
        }
    }

    /// Effective disposition of `self` (the base role) under the situational
    /// modifier `other`, by the fixed table.
    pub fn relative(&self, other: Relationship) -> (r: Relationship)
        ensures
            r == self.spec_relative(other),
    {
        match (*self, other) {
            (Relationship::ALLY, o) => o,
            (Relationship::FRIENDLY, Relationship::ALLY) => Relationship::FRIENDLY,
            (Relationship::FRIENDLY, Relationship::FRIENDLY) => Relationship::FRIENDLY,
            (Relationship::FRIENDLY, Relationship::NEUTRAL) => Relationship::NEUTRAL,
            (Relationship::FRIENDLY, Relationship::HOSTILE) => Relationship::HOSTILE,
            (Relationship::NEUTRAL, _) => Relationship::NEUTRAL,
            (Relationship::HOSTILE, Relationship::ALLY) => Relationship::HOSTILE,
            (Relationship::HOSTILE, Relationship::FRIENDLY) => Relationship::HOSTILE,
            (Relationship::HOSTILE, Relationship::NEUTRAL) => Relationship::NEUTRAL,
            (Relationship::HOSTILE, Relationship::HOSTILE) => Relationship::FRIENDLY,
        }
    }
}

/// An ally defers entirely to the situational value; two hostile parties read
/// as aligned; a neutral base never moves; composing never leaves the four
/// values.
pub proof fn lemma_relative_table(x: Relationship)
    ensures
        Relationship::ALLY.spec_relative(x) == x,
        Relationship::NEUTRAL.spec_relative(x) == Relationship::NEUTRAL,
        Relationship::HOSTILE.spec_relative(Relationship::HOSTILE) == Relationship::FRIENDLY,
{
}

/// Character attributes derived from base values and modifier sources; read
/// by rendering, AI and combat.
#[derive(Clone, Copy, PartialEq, Eq, Structural, Debug)]
pub struct CharaAttributes {
    /// Max HP
    pub max_hp: i32,
    pub strength: u16,
    pub vitality: u16,
    pub dexterity: u16,
    pub intelligence: u16,
    pub will: u16,
    pub charisma: u16,
    pub speed: u16,
    /// Range of view in tiles
    pub view_range: i32,
}

impl Default for CharaAttributes {
    fn default() -> (r: CharaAttributes)
        ensures
            r == CharaAttributes::zero(),
    {
        CharaAttributes {
            max_hp: 0,
            strength: 0,
            vitality: 0,
            dexterity: 0,
            intelligence: 0,
            will: 0,
            charisma: 0,
            speed: 0,
            view_range: 0,
        }
    }
}

impl CharaAttributes {
    /// The all-zero attribute record.
    pub open spec fn zero() -> CharaAttributes {
        CharaAttributes {
            max_hp: 0,
            strength: 0,
            vitality: 0,
            dexterity: 0,
            intelligence: 0,
            will: 0,
            charisma: 0,
            speed: 0,
            view_range: 0,
        }
    }
}

/// Base attributes as computed from template and level, before temporary
/// modifiers.
#[derive(Clone, Copy, PartialEq, Eq, Structural, Debug)]
pub struct CharaBaseAttr {
    pub base_hp: i32,
    pub strength: i16,
    pub vitality: i16,
    pub dexterity: i16,
    pub intelligence: i16,
    pub will: i16,
    pub charisma: i16,
    pub speed: i16,
}

/// The net effect of one modifier source (equipment, buff, status) on the
/// base attributes.
#[derive(Clone, Copy, PartialEq, Eq, Structural, Debug)]
pub struct CharaAttrRevision {
    pub hp: i32,
    pub strength: i16,
    pub vitality: i16,
    pub dexterity: i16,
    pub intelligence: i16,
    pub will: i16,
    pub charisma: i16,
    pub speed: i16,
}

impl CharaAttrRevision {
    /// The delta that changes nothing: the identity of revision.
    pub open spec fn zero() -> CharaAttrRevision {
        CharaAttrRevision {
            hp: 0,
            strength: 0,
            vitality: 0,
            dexterity: 0,
            intelligence: 0,
            will: 0,
            charisma: 0,
            speed: 0,
        }
    }
}

impl CharaBaseAttr {
    /// Elementwise sums of `self` and `r` all fit their machine types.
    pub open spec fn revision_fits(self, r: CharaAttrRevision) -> bool {
        &&& i32::MIN <= self.base_hp + r.hp <= i32::MAX
        &&& i16::MIN <= self.strength + r.strength <= i16::MAX
        &&& i16::MIN <= self.vitality + r.vitality <= i16::MAX
        &&& i16::MIN <= self.dexterity + r.dexterity <= i16::MAX
        &&& i16::MIN <= self.intelligence + r.intelligence <= i16::MAX
        &&& i16::MIN <= self.will + r.will <= i16::MAX
        &&& i16::MIN <= self.charisma + r.charisma <= i16::MAX
        &&& i16::MIN <= self.speed + r.speed <= i16::MAX
    }

    /// Pure elementwise addition of a revision onto base attributes.
    pub open spec fn spec_revise(self, r: CharaAttrRevision) -> CharaBaseAttr
        recommends
            self.revision_fits(r),
    {
        CharaBaseAttr {
            base_hp: (self.base_hp + r.hp) as i32,
            strength: (self.strength + r.strength) as i16,
            vitality: (self.vitality + r.vitality) as i16,
            dexterity: (self.dexterity + r.dexterity) as i16,
            intelligence: (self.intelligence + r.intelligence) as i16,
            will: (self.will + r.will) as i16,
            charisma: (self.charisma + r.charisma) as i16,
            speed: (self.speed + r.speed) as i16,
        }
    }

    /// Applies one revision source to the base attributes, elementwise.
    pub fn revise(self, r: CharaAttrRevision) -> (out: CharaBaseAttr)
        requires
            self.revision_fits(r),
        ensures
            out == self.spec_revise(r),
    {
        CharaBaseAttr {
            base_hp: self.base_hp + r.hp,
            strength: self.strength + r.strength,
            vitality: self.vitality + r.vitality,
            dexterity: self.dexterity + r.dexterity,
            intelligence: self.intelligence + r.intelligence,
            will: self.will + r.will,
            charisma: self.charisma + r.charisma,
            speed: self.speed + r.speed,
        }
    }
}

/// Applying two revisions in either order yields the same attributes, as long
/// as both orders stay within the machine types.
pub proof fn lemma_revise_commutes(base: CharaBaseAttr, a: CharaAttrRevision, b: CharaAttrRevision)
    requires
        base.revision_fits(a),
        base.revision_fits(b),
        base.spec_revise(a).revision_fits(b),
        base.spec_revise(b).revision_fits(a),
    ensures
        base.spec_revise(a).spec_revise(b) == base.spec_revise(b).spec_revise(a),
{
}

/// The all-zero revision is the identity of `revise`.
pub proof fn lemma_revise_identity(base: CharaBaseAttr)
    ensures
        base.revision_fits(CharaAttrRevision::zero()),
        base.spec_revise(CharaAttrRevision::zero()) == base,
{
}

/// Represents chara status.
#[derive(Clone, Copy, PartialEq, Eq, Structural, PartialOrd, Hash, Debug)]
pub enum CharaStatus {
    /// Sp status
    Hungry,
    /// Sp status
    Weak,
    /// Sp status
    Starving,
    Asleep { turn_left: u16 },
    Poisoned,
}

/// The three lifetime scopes an identity can have.
#[derive(Clone, Copy, PartialEq, Eq, Structural, Debug)]
pub enum CharaKind {
    /// Player is the unique character in the game.
    Player,
    /// Indexed for a site; the character is bound to one settlement.
    OnSite,
    /// Indexed for a map; the character does not appear on other maps.
    OnMap,
}

/// Key of one site.
#[derive(Clone, Copy, PartialEq, Eq, Structural, Hash, Debug)]
pub struct SiteId(pub u32);

/// Key of one map: a site and a floor within it.
#[derive(Clone, Copy, PartialEq, Eq, Structural, Hash, Debug)]
pub struct MapId {
    pub sid: SiteId,
    pub floor: u32,
}

/// A character's identity: the only valid way to address it.
#[derive(Clone, Copy, PartialEq, Eq, Structural, Hash, Debug)]
pub enum CharaId {
    /// Player is the unique character in the game.
    Player,
    /// Indexed for a site; citizens of a town use this shape.
    OnSite { sid: SiteId, n: u32 },
    /// Indexed for a map; randomly generated characters use this shape.
    OnMap { mid: MapId, n: u32 },
}

impl CharaId {
    /// True exactly for map-scoped identities, which live in the transient
    /// partition of the store.
    pub open spec fn spec_is_on_map(self) -> bool {
        self is OnMap
    }

    /// The scope of this identity.
    pub open spec fn spec_kind(self) -> CharaKind {
        match self {
            CharaId::Player => CharaKind::Player,
            CharaId::OnSite { .. } => CharaKind::OnSite,
            CharaId::OnMap { .. } => CharaKind::OnMap,
        }
    }

    /// The scope of this identity.
    pub fn kind(&self) -> (k: CharaKind)
        ensures
            k == self.spec_kind(),
    {
        match self {
            CharaId::Player => CharaKind::Player,
            CharaId::OnSite { .. } => CharaKind::OnSite,
            CharaId::OnMap { .. } => CharaKind::OnMap,
        }
    }

    /// Whether this identity belongs to the transient, map-scoped partition.
    pub fn is_on_map(&self) -> (r: bool)
        ensures
            r == self.spec_is_on_map(),
    {
        match self {
            CharaId::OnMap { .. } => true,
            _ => false,
        }
    }
}

/// Data to determine an NPC's actions.
#[derive(Clone, Copy, PartialEq, Eq, Structural, Hash, Debug)]
pub struct CharaAI {
    pub kind: NpcAIKind,
}

/// Rough kind of NPC AI.
#[derive(Clone, Copy, PartialEq, Eq, Structural, Hash, Debug)]
pub enum NpcAIKind {
    /// This npc does not do anything.
    NoAction,
    /// This npc will not move.
    NoMove,
    /// This npc will chase near enemies and try melee attacks.
    Melee,
}

impl Default for CharaAI {
    fn default() -> (r: CharaAI)
        ensures
            r == (CharaAI { kind: NpcAIKind::NoAction }),
    {
        CharaAI { kind: NpcAIKind::NoAction }
    }
}

/// A character's inventory.
#[derive(Clone, PartialEq, Debug)]
pub struct ItemList {
    pub items: Vec<u64>,
}

impl ItemList {
    pub fn new() -> (r: ItemList)
        ensures
            r.items@ == Seq::<u64>::empty(),
    {
        ItemList { items: Vec::new() }
    }
}

/// The items a character has equipped.
#[derive(Clone, PartialEq, Debug)]
pub struct EquipItemList {
    pub items: Vec<u64>,
}

impl EquipItemList {
    pub fn new() -> (r: EquipItemList)
        ensures
            r.items@ == Seq::<u64>::empty(),
    {
        EquipItemList { items: Vec::new() }
    }
}

/// A character's learned skills.
#[derive(Clone, PartialEq, Debug)]
pub struct SkillList {
    pub skills: Vec<u64>,
}

impl SkillList {
    pub fn new() -> (r: SkillList)
        ensures
            r.skills@ == Seq::<u64>::empty(),
    {
        SkillList { skills: Vec::new() }
    }
}

impl Default for SkillList {
    fn default() -> (r: SkillList)
        ensures
            r.skills@ == Seq::<u64>::empty(),
    {
        SkillList { skills: Vec::new() }
    }
}

/// Index of a character template in the template table.
#[derive(Clone, Copy, PartialEq, Eq, Structural, Hash, Debug)]
pub struct CharaTemplateIdx(pub u32);

impl Default for CharaTemplateIdx {
    fn default() -> (r: CharaTemplateIdx)
        ensures
            r == CharaTemplateIdx(0),
    {
        CharaTemplateIdx(0)
    }
}

/// All data for one character.
#[derive(Clone, PartialEq, Debug)]
pub struct Chara {
    pub name: Option<String>,
    pub attr: CharaAttributes,
    pub template: CharaTemplateIdx,
    pub class: CharaClass,
    pub level: u32,
    pub item_list: ItemList,
    pub equip: EquipItemList,
    pub wait_time: u32,
    pub ai: CharaAI,
    pub hp: i32,
    pub sp: i32,
    pub status: Vec<CharaStatus>,
    pub skills: SkillList,
    /// Relationship to the player character.
    pub rel: Relationship,
    /// When talked to, this script is executed.
    pub trigger_talk: Option<String>,
}

impl Default for Chara {
    fn default() -> (r: Chara)
        ensures
            r.name is None,
            r.attr == CharaAttributes::zero(),
            r.template == CharaTemplateIdx(0),
            r.class == CharaClass::Civilian,
            r.level == 0,
            r.item_list.items@ == Seq::<u64>::empty(),
            r.equip.items@ == Seq::<u64>::empty(),
            r.wait_time == crate::WAIT_TIME_NUMERATOR,
            r.ai == (CharaAI { kind: NpcAIKind::NoAction }),
            r.hp == 100,
            r.sp == 0,
            r.status@ == Seq::<CharaStatus>::empty(),
            r.skills.skills@ == Seq::<u64>::empty(),
            r.rel == Relationship::NEUTRAL,
            r.trigger_talk is None,
    {
        Chara {
            name: None,
            attr: CharaAttributes::default(),
            template: CharaTemplateIdx::default(),
            class: CharaClass::default(),
            level: 0,
            item_list: ItemList::new(),
            equip: EquipItemList::new(),
            wait_time: crate::WAIT_TIME_NUMERATOR,
            ai: CharaAI::default(),
            hp: 100,
            sp: 0,
            status: Vec::new(),
            skills: SkillList::default(),
            rel: Relationship::NEUTRAL,
            trigger_talk: None,
        }
    }
}

/// When a chara is talked to, talk starts from the given section of the given
/// talk script.
#[derive(Clone, PartialEq, Eq, Debug)]
pub struct CharaTalk {
    /// Id of the talk script object.
    pub id: String,
    /// Section of the talk script.
    pub section: String,
}

} // verus!
