use war_helper::alert_connector::AlertConnector;
use war_helper::bucket::{bucket_of_reaction, reactions, Bucket};
use war_helper::store::{any_role_granted, rosters_containing_user, AlertSeed, RosterStore, StoreError};
use war_helper::trade_skill::{all_trade_skills, TradeSkill};
use war_helper::user_data::{default_trade_skills, default_weapons, ProfileUpdate, UserData};
use war_helper::war_message::WarMessage;
use war_helper::weapon::{all_weapons, Weapon};

fn roster(code: &str) -> AlertConnector {
    AlertConnector::create(code, "Mon  5. Jun", "14:00pm", "aurora", "marauder", "brimstone_sands", "", 0, WarMessage::new(1, 2, 3))
}

fn seed() -> AlertSeed {
    AlertSeed {
        date: "Mon  5. Jun".to_string(),
        time: "14:00pm".to_string(),
        server: "aurora".to_string(),
        faction: "marauder".to_string(),
        territory: "brimstone_sands".to_string(),
        title: String::new(),
        kind: 0,
    }
}

#[test]
fn every_weapon_round_trips_through_its_code() {
    let weapons = all_weapons();
    assert_eq!(weapons.len(), 12);
    for (i, w) in weapons.iter().enumerate() {
        assert_eq!(w.index(), i);
        assert_eq!(Weapon::from_code(w.code()), Ok(*w));
    }
    assert_eq!(Weapon::from_code("ICEGAUNT"), Ok(Weapon::IceGauntlet));
    assert_eq!(Weapon::from_code("rapier"), Err("Failed to parse weapon"));
    assert_eq!(Weapon::Rapier.get_abbreviation(), "R");
    assert_eq!(Weapon::GreatAxe.get_label(), "Great Axe");
}

#[test]
fn every_trade_skill_round_trips_through_code_and_index() {
    let skills = all_trade_skills();
    assert_eq!(skills.len(), 17);
    for (i, s) in skills.iter().enumerate() {
        assert_eq!(s.index(), i);
        assert_eq!(TradeSkill::from_code(s.code()), Ok(*s));
        assert_eq!(TradeSkill::from_code(&i.to_string()), Ok(*s));
    }
    assert_eq!(TradeSkill::from_code("17"), Err("17".to_string()));
    assert_eq!(TradeSkill::from_code("mining"), Err("mining".to_string()));
    assert_eq!(TradeSkill::TrackingSkinning.get_label(), "Tracking and Skinning");
}

#[test]
fn war_message_keeps_its_ids() {
    let wm = WarMessage::new(10, 20, 30);
    assert_eq!(wm.get_guild_id(), 10);
    assert_eq!(wm.get_channel_id(), 20);
    assert_eq!(wm.get_message_id(), 30);
    assert!(wm == WarMessage::new(10, 20, 30));
    assert!(wm != WarMessage::new(10, 20, 31));
}

#[test]
fn reaction_table_decodes_each_bucket() {
    let table = reactions();
    assert_eq!(table, vec!['🛡', '🗡', '🏹', '🪄', '❤', '💥', '❓', '⛔']);
    assert_eq!(bucket_of_reaction("🛡"), Some(Bucket::Tank));
    assert_eq!(bucket_of_reaction("🗡"), Some(Bucket::Mdps));
    assert_eq!(bucket_of_reaction("🏹"), Some(Bucket::Prdps));
    assert_eq!(bucket_of_reaction("🪄"), Some(Bucket::Erdps));
    assert_eq!(bucket_of_reaction("❤"), Some(Bucket::Healer));
    assert_eq!(bucket_of_reaction("💥"), Some(Bucket::Artillery));
    assert_eq!(bucket_of_reaction("❓"), Some(Bucket::Tentative));
    assert_eq!(bucket_of_reaction("⛔"), Some(Bucket::NotAvailable));
    assert_eq!(bucket_of_reaction("❤️"), None);
    assert_eq!(bucket_of_reaction("x"), None);
    for b in [Bucket::Tank, Bucket::Healer, Bucket::NotAvailable] {
        assert_eq!(bucket_of_reaction(&b.reaction().to_string()), Some(b));
    }
}

#[test]
fn users_are_listed_from_every_bucket_but_artillery() {
    let mut ac = roster("a");
    ac.set_membership(Bucket::Tank, 1, true);
    ac.set_membership(Bucket::Erdps, 2, true);
    ac.set_membership(Bucket::Prdps, 3, true);
    ac.set_membership(Bucket::Mdps, 4, true);
    ac.set_membership(Bucket::Healer, 5, true);
    ac.set_membership(Bucket::Tentative, 6, true);
    ac.set_membership(Bucket::NotAvailable, 7, true);
    ac.set_membership(Bucket::Artillery, 8, true);
    assert_eq!(ac.get_users(), vec![1, 2, 3, 4, 5, 6, 7]);
    assert!(ac.contains_user(7));
    assert!(!ac.contains_user(8));
}

#[test]
fn set_membership_twice_equals_once() {
    let mut ac = roster("a");
    ac.set_membership(Bucket::Healer, 9, true);
    let once = ac.healers.clone();
    ac.set_membership(Bucket::Healer, 9, true);
    assert_eq!(ac.healers, once);
    assert_eq!(ac.healers, vec![9]);
}

#[test]
fn removing_an_absent_member_is_a_no_op() {
    let mut ac = roster("a");
    ac.set_membership(Bucket::Tank, 1, true);
    ac.set_membership(Bucket::Tank, 2, true);
    ac.set_membership(Bucket::Tank, 3, false);
    assert_eq!(ac.tanks, vec![1, 2]);
    ac.set_membership(Bucket::Tank, 1, false);
    assert_eq!(ac.tanks, vec![2]);
}

#[test]
fn a_user_may_sit_in_two_buckets() {
    let mut ac = roster("a");
    ac.set_membership(Bucket::Tank, 1, true);
    ac.set_membership(Bucket::Healer, 1, true);
    assert_eq!(ac.tanks, vec![1]);
    assert_eq!(ac.healers, vec![1]);
}

#[test]
fn announcements_are_deduplicated_by_their_ids() {
    let mut ac = roster("a");
    ac.add_war_message(WarMessage::new(1, 2, 3));
    assert_eq!(ac.war_messages.len(), 1);
    ac.add_war_message(WarMessage::new(4, 5, 6));
    assert_eq!(ac.war_messages.len(), 2);
    assert!(ac.contains_war_message(4, 5, 6));
    assert!(!ac.contains_war_message(4, 5, 7));
    assert!(ac.channel_contains_war_message(1, 2));
    assert!(!ac.channel_contains_war_message(1, 5));
    let guilds = ac.get_guild_ids();
    assert_eq!(guilds.len(), 2);
    assert!(guilds.contains(&1) && guilds.contains(&4));
}

#[test]
fn concurrent_announcements_converge_on_one_roster() {
    let mut store = RosterStore::new();
    store.ensure_announcement("id", WarMessage::new(1, 2, 3), &seed());
    store.ensure_announcement("id", WarMessage::new(7, 8, 9), &seed());
    assert_eq!(store.rosters.len(), 1);
    let ac = store.get("id").unwrap();
    assert!(ac.contains_war_message(1, 2, 3));
    assert!(ac.contains_war_message(7, 8, 9));
    assert_eq!(ac.server, "aurora");

    let mut other = RosterStore::new();
    other.ensure_announcement("id", WarMessage::new(7, 8, 9), &seed());
    other.ensure_announcement("id", WarMessage::new(1, 2, 3), &seed());
    assert_eq!(other.rosters.len(), 1);
    assert_eq!(other.rosters[0].war_messages.len(), 2);
}

#[test]
fn membership_on_a_missing_roster_is_not_found() {
    let mut store = RosterStore::new();
    assert_eq!(store.set_membership("none", Bucket::Tank, 1, true), Err(StoreError::NotFound));
    store.ensure_announcement("id", WarMessage::new(1, 2, 3), &seed());
    assert_eq!(store.set_membership("id", Bucket::Tank, 1, true), Ok(()));
    assert_eq!(store.set_membership("id", Bucket::Tank, 1, true), Ok(()));
    assert_eq!(store.get("id").unwrap().tanks, vec![1]);
    assert!(store.get("none").is_none());
}

#[test]
fn permission_needs_a_granted_role() {
    let mut store = RosterStore::new();
    assert!(!store.has_permission(5, &vec![]));
    assert!(!store.has_permission(5, &vec![77]));
    store.set_permission(5, 77, true);
    assert!(store.has_permission(5, &vec![77]));
    assert!(store.has_permission(5, &vec![1, 77]));
    assert!(!store.has_permission(5, &vec![]));
    assert!(!store.has_permission(6, &vec![77]));
    store.set_permission(5, 77, true);
    store.set_permission(5, 77, false);
    assert!(!store.has_permission(5, &vec![77]));
    assert!(!store.has_permission(5, &vec![]));
}

#[test]
fn any_role_granted_checks_intersection() {
    assert!(!any_role_granted(&vec![1, 2], &vec![]));
    assert!(any_role_granted(&vec![1, 2], &vec![3, 2]));
    assert!(!any_role_granted(&vec![], &vec![3]));
}

#[test]
fn rosters_containing_user_keeps_store_order() {
    let mut a = roster("a");
    a.set_membership(Bucket::Tank, 5, true);
    let b = roster("b");
    let mut c = roster("c");
    c.set_membership(Bucket::NotAvailable, 5, true);
    let mut d = roster("d");
    d.set_membership(Bucket::Artillery, 5, true);
    let found = rosters_containing_user(vec![a, b, c, d], 5);
    let codes: Vec<&str> = found.iter().map(|r| r.code.as_str()).collect();
    assert_eq!(codes, vec!["a", "c", "d"]);
}

#[test]
fn default_profile_has_every_level_at_zero() {
    let p = UserData::default();
    assert_eq!(p.username, "");
    assert_eq!(p.level, 1);
    assert_eq!(p.gear_score, 0);
    assert_eq!(p.trade_skills, default_trade_skills());
    assert_eq!(p.weapons, default_weapons());
    assert_eq!(p.weapons.len(), 12);
    assert_eq!(p.trade_skills.len(), 17);
    assert_eq!(p.get_main_hand_level(), 0);
    assert_eq!(p.get_secondary_level(), 0);
}

#[test]
fn profile_updates_touch_one_field() {
    let mut p = UserData::default();
    p.apply(ProfileUpdate::WeaponLevel(Weapon::Rapier, 15));
    p.apply(ProfileUpdate::MainHand(Weapon::Rapier));
    p.apply(ProfileUpdate::TradeSkill(TradeSkill::Mining, 150));
    p.apply(ProfileUpdate::Username("Foo".to_string()));
    assert_eq!(p.get_main_hand_level(), 15);
    assert_eq!(p.get_weapon_level(Weapon::Rapier), 15);
    assert_eq!(p.get_weapon_level(Weapon::Bow), 0);
    assert_eq!(p.get_trade_skill(TradeSkill::Mining), 150);
    assert_eq!(p.get_trade_skill(TradeSkill::Fishing), 0);
    assert_eq!(p.secondary, None);
    assert_eq!(p.get_secondary_level(), 0);
    assert_eq!(p.username, "Foo");
}

#[test]
fn missing_level_entries_read_as_zero() {
    let mut p = UserData::default();
    p.weapons = vec![];
    p.main_hand = Some(Weapon::VoidGauntlet);
    assert_eq!(p.get_main_hand_level(), 0);
    p.apply(ProfileUpdate::WeaponLevel(Weapon::Bow, 7));
    assert_eq!(p.get_weapon_level(Weapon::Bow), 7);
    assert_eq!(p.get_weapon_level(Weapon::SwordAndShield), 0);
}

#[test]
fn rosters_are_equal_by_identity() {
    let mut a = roster("same");
    let b = roster("same");
    a.set_membership(Bucket::Tank, 1, true);
    assert!(a == b);
    assert!(a != roster("other"));
}

#[test]
fn membership_in_any_bucket_counts() {
    let mut ac = roster("a");
    assert!(!ac.has_member(4));
    ac.set_membership(Bucket::Artillery, 4, true);
    assert!(ac.has_member(4));
    assert!(!ac.contains_user(4));
    assert_eq!(ac.bucket(Bucket::Artillery), &vec![4]);
}

#[test]
fn added_member_is_listed_once_in_the_store() {
    let mut store = RosterStore::new();
    store.ensure_announcement("id", WarMessage::new(1, 2, 3), &seed());
    store.set_membership("id", Bucket::Erdps, 8, true).unwrap();
    store.set_membership("id", Bucket::Erdps, 8, true).unwrap();
    store.set_membership("id", Bucket::Erdps, 9, true).unwrap();
    assert_eq!(store.get("id").unwrap().erdps, vec![8, 9]);
    store.set_membership("id", Bucket::Erdps, 8, false).unwrap();
    assert_eq!(store.get("id").unwrap().erdps, vec![9]);
}
