use chara_core::chara::{Chara, CharaId, CharaKind, MapId, Relationship, SiteId};
use chara_core::holder::{CharaHolder, CharaTable};

fn site_id(n: u32, seq: u32) -> CharaId {
    CharaId::OnSite {
        sid: SiteId(n),
        n: seq,
    }
}

fn map_id(site: u32, floor: u32, seq: u32) -> CharaId {
    CharaId::OnMap {
        mid: MapId {
            sid: SiteId(site),
            floor,
        },
        n: seq,
    }
}

fn named(name: &str) -> Chara {
    let mut c = Chara::default();
    c.name = Some(name.to_string());
    c
}

#[test]
fn add_then_get_player() {
    let mut h = CharaHolder::new();
    let c = named("player");
    h.add(CharaId::Player, c.clone());
    assert!(h.contains(CharaId::Player));
    assert_eq!(*h.get(CharaId::Player), c);
}

#[test]
fn add_then_get_site_scoped() {
    let mut h = CharaHolder::new();
    let cid = site_id(3, 7);
    let c = named("citizen");
    h.add(cid, c.clone());
    assert_eq!(*h.get(cid), c);
}

#[test]
fn add_then_get_map_scoped() {
    let mut h = CharaHolder::new();
    let cid = map_id(1, 2, 0);
    let c = named("spawn");
    h.add(cid, c.clone());
    assert_eq!(*h.get(cid), c);
}

#[test]
fn add_routes_by_identity_shape() {
    // A map-scoped entity must vanish with the transient partition while a
    // site-scoped one survives the swap.
    let mut h = CharaHolder::new();
    let persistent_id = site_id(1, 1);
    let transient_id = map_id(1, 1, 1);
    h.add(persistent_id, named("keeper"));
    h.add(transient_id, named("wanderer"));
    let prev = h.replace_on_map_chara(CharaTable::new());
    assert!(h.contains(persistent_id));
    assert!(!h.contains(transient_id));
    assert_eq!(*prev.get(transient_id), named("wanderer"));
}

#[test]
fn add_overwrites_existing_identity() {
    let mut h = CharaHolder::new();
    let cid = site_id(2, 2);
    h.add(cid, named("first"));
    h.add(cid, named("second"));
    assert_eq!(h.get(cid).name.as_deref(), Some("second"));
}

#[test]
fn get_mut_updates_in_place() {
    let mut h = CharaHolder::new();
    let cid = map_id(4, 0, 9);
    h.add(cid, named("npc"));
    {
        let c = h.get_mut(cid);
        c.hp = 1;
        c.rel = Relationship::ALLY;
    }
    assert_eq!(h.get(cid).hp, 1);
    assert_eq!(h.get(cid).rel, Relationship::ALLY);
}

#[test]
fn remove_deletes_and_tolerates_absent() {
    let mut h = CharaHolder::new();
    let cid = site_id(5, 5);
    h.add(cid, named("gone"));
    h.remove_chara(cid);
    assert!(!h.contains(cid));
    // removing an absent identity is a silent no-op
    h.remove_chara(cid);
    h.remove_chara(map_id(9, 9, 9));
    assert!(!h.contains(cid));
}

#[test]
fn replace_transient_returns_previous_contents() {
    let mut h = CharaHolder::new();
    let a = map_id(1, 0, 0);
    let b = map_id(1, 0, 1);
    h.add(a, named("a"));
    h.add(b, named("b"));

    let mut next = CharaTable::new();
    let c = map_id(1, 1, 0);
    next.insert(c, named("c"));

    let prev = h.replace_on_map_chara(next);
    assert!(prev.contains(a));
    assert!(prev.contains(b));
    assert!(!prev.contains(c));
    assert!(!h.contains(a));
    assert!(!h.contains(b));
    assert!(h.contains(c));
    assert_eq!(h.get(c).name.as_deref(), Some("c"));
}

#[test]
fn identity_kind_follows_shape() {
    assert_eq!(CharaId::Player.kind(), CharaKind::Player);
    assert_eq!(site_id(1, 2).kind(), CharaKind::OnSite);
    assert_eq!(map_id(1, 2, 3).kind(), CharaKind::OnMap);
}
