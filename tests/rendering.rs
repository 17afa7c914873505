use std::collections::HashSet;
use war_helper::alert::{
    alert_plan, announcement_fields, announcement_title, convert_to_emoji, format_date, format_time,
    alert_needs_post, missing_reactions, placeholder_body, plan_alert, reaction_bucket, rebuild_fields, AlertDateTime,
    AlertError,
};
use war_helper::alert_connector::AlertConnector;
use war_helper::bucket::Bucket;
use war_helper::command::{
    permission_change, plan_register, search_description, search_minimum, search_names, search_subject,
    search_title, search_value, RegisterCommand, SearchKey,
};
use war_helper::identity::{derive_identity, identity_from_footer, identity_text, parse_identity};
use war_helper::render::{field, render_bucket_value, render_member_line, render_roster_body, EmbedField};
use war_helper::stats::{add_weapon_counts_to_embed, aggregate, stats_fields, stats_title};
use war_helper::text::decimal_string;
use war_helper::user_data::{ProfileUpdate, UserData};
use war_helper::war_message::WarMessage;
use war_helper::weapon::Weapon;

const BLANK: &str = "\u{200B}";

fn profile(name: &str, gear_score: u16, main: Option<(Weapon, u8)>, secondary: Option<(Weapon, u8)>) -> UserData {
    let mut p = UserData::default();
    p.username = name.to_string();
    p.gear_score = gear_score;
    if let Some((w, l)) = main {
        p.apply(ProfileUpdate::WeaponLevel(w, l));
        p.main_hand = Some(w);
    }
    if let Some((w, l)) = secondary {
        p.apply(ProfileUpdate::WeaponLevel(w, l));
        p.secondary = Some(w);
    }
    p
}

fn empty_roster() -> AlertConnector {
    AlertConnector::create("id", "d", "t", "s", "f", "x", "", 0, WarMessage::new(1, 2, 3))
}

fn view(fields: &[EmbedField]) -> Vec<(String, String, bool)> {
    fields.iter().map(|f| (f.name.clone(), f.value.clone(), f.inline)).collect()
}

#[test]
fn identity_is_fixed_across_runs() {
    let id = derive_identity("Mon 5. Jun", "14:00pm", "aurora", "marauder", "brimstone sands");
    assert_eq!(id, 0x56c3998476aa5a53b797a2f60bba9902);
    assert_eq!(identity_text(id), "56c39984-76aa-5a53-b797-a2f60bba9902");
}

#[test]
fn identity_ignores_case_of_server_faction_and_territory() {
    let a = derive_identity("Mon 5. Jun", "14:00pm", "aurora", "marauder", "brimstone sands");
    let b = derive_identity("Mon 5. Jun", "14:00pm", "AURORA", "Marauder", "Brimstone Sands");
    assert_eq!(a, b);
    let c = derive_identity("Tue 6. Jun", "14:00pm", "aurora", "marauder", "brimstone sands");
    assert_ne!(a, c);
}

#[test]
fn identity_corpus_has_no_collisions() {
    let mut seen = HashSet::new();
    let mut n = 0;
    for day in 1..=25u32 {
        for hour in 0..20u32 {
            for server in ["aurora", "valhalla", "orofena", "castor"] {
                for territory in ["brimstone sands", "everfall", "windsward", "reekwater", "ebonscale reach"] {
                    let date = format!("Mon {:>2}. Jun", day);
                    let time = format!("{:02}:00pm", hour);
                    seen.insert(derive_identity(&date, &time, server, "marauder", territory));
                    n += 1;
                }
            }
        }
    }
    assert_eq!(n, 10_000);
    assert_eq!(seen.len(), n);
}

#[test]
fn footer_identity_round_trips() {
    let id = derive_identity("Mon 5. Jun", "14:00pm", "aurora", "marauder", "brimstone sands");
    let footer = format!("{} extra", identity_text(id));
    assert_eq!(identity_from_footer(&footer), Some(id));
    assert_eq!(identity_from_footer(&identity_text(id).to_uppercase()), Some(id));
    assert_eq!(identity_from_footer("not an identity"), None);
    assert_eq!(identity_from_footer(""), None);
}

#[test]
fn duty_line_shows_gear_name_and_loadouts() {
    let p = profile("Foo", 450, Some((Weapon::Rapier, 15)), None);
    assert_eq!(render_member_line(&p, true), "`450`Foo`15 R, 0 N/A`\n");
    let book = vec![(1u64, p)];
    assert_eq!(render_bucket_value(&vec![1], &book, true), "`450`Foo`15 R, 0 N/A`");
}

#[test]
fn status_line_pads_gear_score() {
    let p = profile("Bar", 7, Some((Weapon::Bow, 3)), Some((Weapon::Musket, 4)));
    assert_eq!(render_member_line(&p, false), "`007`Bar\n");
    assert_eq!(render_member_line(&p, true), "`007`Bar`3 B, 4 M`\n");
}

#[test]
fn empty_roster_renders_placeholders() {
    let body = render_roster_body(&empty_roster(), &vec![]);
    assert_eq!(body.len(), 16);
    for k in (0..16).step_by(2) {
        assert_eq!(body[k].value, BLANK);
        assert!(body[k].inline);
        assert_eq!(body[k + 1].name, BLANK);
        assert_eq!(body[k + 1].inline, k % 4 == 0);
    }
    assert_eq!(body[0].name, ":shield: TANK :shield:");
    assert_eq!(body[2].name, ":dagger: MDPS :dagger:");
    assert_eq!(body[14].name, ":no_entry: Not Available :no_entry:");
    assert_eq!(view(&body), view(&placeholder_body()));
}

#[test]
fn nameless_or_unknown_members_add_no_line() {
    let mut ac = empty_roster();
    ac.set_membership(Bucket::Tank, 1, true);
    ac.set_membership(Bucket::Tank, 2, true);
    let book = vec![(1u64, UserData::default())];
    let body = render_roster_body(&ac, &book);
    assert_eq!(body[0].value, BLANK);
    assert_eq!(view(&body), view(&placeholder_body()));
}

#[test]
fn roster_body_lists_members_in_bucket_order() {
    let mut ac = empty_roster();
    ac.set_membership(Bucket::Healer, 1, true);
    ac.set_membership(Bucket::Healer, 2, true);
    ac.set_membership(Bucket::Tentative, 1, true);
    let book = vec![
        (1u64, profile("Ann", 600, Some((Weapon::LifeStaff, 20)), Some((Weapon::VoidGauntlet, 12)))),
        (2u64, profile("Bob", 50, None, None)),
        (1u64, profile("Shadow", 1, None, None)),
    ];
    let body = render_roster_body(&ac, &book);
    assert_eq!(body[8].name, ":heart: Healer :heart:");
    assert_eq!(body[8].value, "`600`Ann`20 LS, 12 VG`\n`050`Bob`0 N/A, 0 N/A`");
    assert_eq!(body[12].value, "`600`Ann");
}

#[test]
fn announcement_fields_wrap_the_body() {
    let fields = announcement_fields("Mon  5. Jun", "14:00pm", placeholder_body());
    assert_eq!(fields.len(), 20);
    assert_eq!(fields[0].name, ":calendar_spiral: Mon  5. Jun");
    assert_eq!(fields[2].name, ":clock1: 14:00pm");
    assert_eq!(fields[19].name, "NOTE");
    assert_eq!(fields[19].value, "Remember to use '/register' to register your in-game data.");
    assert_eq!(announcement_title(None), "War Alert");
    assert_eq!(announcement_title(Some("Siege")), "Siege");
}

#[test]
fn rebuild_keeps_schedule_and_note() {
    let old = vec![field("a", "1", true), field("b", "2", true), field("c", "3", true), field("x", "9", false), field("n", "note", false)];
    let body = vec![field("new", "v", true)];
    let rebuilt = rebuild_fields(&old, body).unwrap();
    assert_eq!(
        view(&rebuilt),
        vec![
            ("a".to_string(), "1".to_string(), true),
            ("b".to_string(), "2".to_string(), true),
            ("c".to_string(), "3".to_string(), true),
            ("new".to_string(), "v".to_string(), true),
            ("n".to_string(), "note".to_string(), false),
        ]
    );
    assert!(rebuild_fields(&vec![field("a", "1", true)], vec![]).is_none());
}

#[test]
fn missing_reactions_in_table_order() {
    let present = vec!["🛡".to_string(), "❤".to_string(), "👍".to_string()];
    assert_eq!(missing_reactions(&present), vec!['🗡', '🏹', '🪄', '💥', '❓', '⛔']);
    assert_eq!(missing_reactions(&vec![]).len(), 8);
}

#[test]
fn reactions_decide_the_bucket() {
    let mut ac = empty_roster();
    assert_eq!(reaction_bucket(&ac, 1, 2, 3, 9, "❤", true), Some(Bucket::Healer));
    assert_eq!(reaction_bucket(&ac, 1, 2, 4, 9, "❤", true), None);
    assert_eq!(reaction_bucket(&ac, 1, 2, 3, 9, "❤", false), Some(Bucket::Healer));
    ac.set_membership(Bucket::Healer, 9, true);
    assert_eq!(reaction_bucket(&ac, 1, 2, 3, 9, "🛡", true), None);
    assert_eq!(reaction_bucket(&ac, 1, 2, 3, 9, "❤", false), Some(Bucket::Healer));
    assert_eq!(reaction_bucket(&ac, 1, 2, 3, 9, "😀", false), None);
    assert_eq!(reaction_bucket(&ac, 1, 2, 4, 9, "❤", false), None);
}

#[test]
fn artillery_member_can_leave() {
    let mut ac = empty_roster();
    assert_eq!(reaction_bucket(&ac, 1, 2, 3, 5, "💥", true), Some(Bucket::Artillery));
    ac.set_membership(Bucket::Artillery, 5, true);
    assert_eq!(reaction_bucket(&ac, 1, 2, 3, 5, "💥", false), Some(Bucket::Artillery));
    ac.set_membership(Bucket::Artillery, 5, false);
    assert!(ac.artillery.is_empty());
    assert_eq!(reaction_bucket(&ac, 1, 2, 3, 5, "🛡", false), Some(Bucket::Tank));
}

#[test]
fn emoji_spelling_of_territory() {
    assert_eq!(convert_to_emoji("ab_c"), "🇦 🇧     🇨 ");
    assert_eq!(convert_to_emoji(""), "");
}

#[test]
fn date_and_time_formatting() {
    let dt = AlertDateTime { year: 2023, month: 6, day: 5, hour: 14, minute: 0, weekday: 0 };
    assert_eq!(format_date(&dt), "Mon  5. Jun");
    assert_eq!(format_time(&dt), "14:00pm");
    let dt2 = AlertDateTime { year: 2022, month: 12, day: 24, hour: 9, minute: 5, weekday: 5 };
    assert_eq!(format_date(&dt2), "Sat 24. Dec");
    assert_eq!(format_time(&dt2), "09:05am");
}

#[test]
fn alert_plan_reads_date_and_time() {
    let plan = plan_alert("06/05/2023@2:00PM", 42, "brimstone_sands", None, None, None).ok().unwrap();
    assert_eq!(plan.date, "Mon  5. Jun");
    assert_eq!(plan.time, "14:00pm");
    assert_eq!(plan.server, "localevent42");
    assert_eq!(plan.faction, "event");
    assert_eq!(plan.title, "");
    assert_eq!(plan.kind, 0);
    assert_eq!(identity_text(plan.identity), "3613f73a-dee0-55ad-a156-c97862f8dc83");
    let named = plan_alert("06/05/2023@2:00pm", 42, "everfall", Some("Aurora"), Some("Syndicate"), Some("Siege")).ok().unwrap();
    assert_eq!(named.server, "Aurora");
    assert_eq!(named.faction, "Syndicate");
    assert_eq!(named.title, "Siege");
    assert_eq!(named.kind, 1);
    assert_eq!(named.identity, derive_identity("Mon  5. Jun", "14:00pm", "aurora", "syndicate", "everfall"));
}

#[test]
fn alert_plan_refuses_bad_dates() {
    let r = plan_alert("13/45/2023@2:00pm", 1, "x", None, None, None);
    assert_eq!(r.err(), Some(AlertError::InvalidDateTime));
    assert!(plan_alert("tomorrow", 1, "x", None, None, None).is_err());
    assert!(AlertError::InvalidDateTime.message().starts_with("The date or time entered was invalid."));
}

#[test]
fn alert_plan_from_parsed_fields() {
    let dt = AlertDateTime { year: 2023, month: 6, day: 5, hour: 14, minute: 0, weekday: 0 };
    let plan = alert_plan(&dt, 7, "x", None, Some("Covenant"), None);
    assert_eq!(plan.server, "localevent7");
    assert_eq!(plan.faction, "Covenant");
}

#[test]
fn aggregate_over_no_profiles_is_zero() {
    let s = aggregate(&vec![]);
    assert_eq!(s.avg_level, 0);
    assert_eq!(s.avg_gear_score, 0);
    assert_eq!(s.main_hand_counts, vec![0; 12]);
    assert_eq!(s.secondary_counts, vec![0; 12]);
}

#[test]
fn aggregate_counts_only_set_values() {
    let mut a = profile("a", 0, Some((Weapon::Bow, 1)), None);
    a.level = 1;
    let mut b = profile("b", 500, Some((Weapon::Bow, 1)), Some((Weapon::Rapier, 1)));
    b.level = 30;
    let mut c = profile("c", 601, Some((Weapon::Spear, 1)), None);
    c.level = 61;
    let s = aggregate(&vec![a, b, c]);
    assert_eq!(s.avg_level, 45);
    assert_eq!(s.avg_gear_score, 550);
    assert_eq!(s.main_hand_counts[Weapon::Bow.index()], 2);
    assert_eq!(s.main_hand_counts[Weapon::Spear.index()], 1);
    assert_eq!(s.secondary_counts[Weapon::Rapier.index()], 1);
    assert_eq!(s.secondary_counts.iter().sum::<u32>(), 1);
}

#[test]
fn weapon_histogram_text() {
    let mut counts = vec![0u32; 12];
    counts[Weapon::Rapier.index()] = 1;
    counts[Weapon::Bow.index()] = 3;
    let text = add_weapon_counts_to_embed(&counts);
    let lines: Vec<&str> = text.lines().collect();
    assert_eq!(lines.len(), 24);
    assert_eq!(lines[0], "Sword and Shield");
    assert_eq!(lines[1], "||``|| 0%");
    assert_eq!(lines[2], "Rapier");
    assert_eq!(lines[3], "||`............`|| 25%");
    assert_eq!(lines[12], "Bow");
    assert_eq!(lines[13], "||`.....................................`|| 75%");
    let none = add_weapon_counts_to_embed(&vec![0; 12]);
    assert!(none.lines().skip(1).step_by(2).all(|l| l == "||``|| 0%"));
}

#[test]
fn stats_report_fields() {
    let s = aggregate(&vec![]);
    let fields = stats_fields(&s, 3);
    assert_eq!(fields.len(), 6);
    assert_eq!(fields[0].value, "__**Connected Guilds:**__ 3");
    assert_eq!(fields[1].value, "__**Average Gear Score:**__ 0");
    assert_eq!(fields[3].value, "__**Average Level:**__ 0");
    assert!(fields[4].value.starts_with("__**Main Hand Selections:**__\nSword and Shield\n"));
    assert!(fields[5].value.ends_with("Void Gauntlet\n||``|| 0%"));
    assert_eq!(stats_title("Global"), "War Helper Stats - Global");
}

#[test]
fn search_lists_matches_up_to_a_hundred() {
    assert_eq!(search_names(&vec![], 10), "No Results");
    let c = vec![("a".to_string(), Some(5u16)), ("b".to_string(), None), ("c".to_string(), Some(10)), ("d".to_string(), Some(11))];
    assert_eq!(search_names(&c, 10), "`c`\n`d`\n");
    assert_eq!(search_names(&c, 12), "No Results");
    let many: Vec<(String, Option<u16>)> = (0..150).map(|i| (format!("n{}", i), Some(1u16))).collect();
    let text = search_names(&many, 1);
    assert_eq!(text.lines().count(), 100);
    assert!(text.ends_with("`n99`\n"));
    assert_eq!(search_title("Mining"), "War Helper Search - Mining");
    assert_eq!(search_description(SearchKey::GearScore, 625), "Minimum GS: 625");
    assert_eq!(search_description(SearchKey::Level, 60), "Minimum Level: 60");
    assert_eq!(search_description(SearchKey::Weapon(Weapon::Bow), 20), "Minimum Level: 20");
}

#[test]
fn register_validates_ranges() {
    let p = plan_register(RegisterCommand::Level(60));
    assert!(matches!(p.update, Some(ProfileUpdate::Level(60))));
    assert!(!p.refresh);
    assert_eq!(p.reply, "Level set to 60");
    let p = plan_register(RegisterCommand::Level(61));
    assert!(p.update.is_none());
    assert_eq!(p.reply, "Please enter a level from 1 to 60 (inclusive).");
    let p = plan_register(RegisterCommand::GearScore(625));
    assert!(matches!(p.update, Some(ProfileUpdate::GearScore(625))));
    assert!(p.refresh);
    let p = plan_register(RegisterCommand::GearScore(-1));
    assert_eq!(p.reply, "Please enter a level from 0 to 625 (inclusive).");
    let p = plan_register(RegisterCommand::WeaponLevel("RAPIER".to_string(), 20));
    assert!(matches!(p.update, Some(ProfileUpdate::WeaponLevel(Weapon::Rapier, 20))));
    assert_eq!(p.reply, "Rapier set to 20");
    let p = plan_register(RegisterCommand::WeaponLevel("RAPIER".to_string(), 21));
    assert_eq!(p.reply, "Please enter a level from 0 to 20 (inclusive).");
    let p = plan_register(RegisterCommand::TradeSkill("7".to_string(), 200));
    assert_eq!(p.reply, "Mining set to 200");
    let p = plan_register(RegisterCommand::TradeSkill("ALCHEMY".to_string(), 2));
    assert_eq!(p.reply, "Invalid input for trade skill");
    let p = plan_register(RegisterCommand::MainHand("FIRESTAFF".to_string()));
    assert_eq!(p.reply, "Main hand set to Fire Staff");
    let p = plan_register(RegisterCommand::Secondary("WAND".to_string()));
    assert_eq!(p.reply, "Invalid input for weapon");
    let p = plan_register(RegisterCommand::Username("Foo".to_string()));
    assert!(matches!(&p.update, Some(ProfileUpdate::Username(n)) if n == "Foo"));
    assert_eq!(p.reply, "Username set to Foo");
}

#[test]
fn permission_commands() {
    assert_eq!(permission_change("add").map(|c| c.0), Some(true));
    assert_eq!(permission_change("remove").map(|c| c.0), Some(false));
    assert_eq!(permission_change("toggle"), None);
}

#[test]
fn decimal_rendering() {
    assert_eq!(decimal_string(0), "0");
    assert_eq!(decimal_string(450), "450");
    assert_eq!(decimal_string(u64::MAX), u64::MAX.to_string());
}

#[test]
fn identity_text_forms_are_read() {
    let id = derive_identity("Mon 5. Jun", "14:00pm", "aurora", "marauder", "brimstone sands");
    let text = identity_text(id);
    assert_eq!(parse_identity(&text), Some(id));
    assert_eq!(parse_identity(&format!("{{{}}}", text)), Some(id));
    assert_eq!(parse_identity(&format!("urn:uuid:{}", text)), Some(id));
    assert_eq!(parse_identity(&text.to_uppercase()), Some(id));
    assert_eq!(parse_identity("56c39984"), None);
}

#[test]
fn alert_is_posted_once_per_channel() {
    let ac = empty_roster();
    assert!(alert_needs_post(&None, 1, 2));
    assert!(!alert_needs_post(&Some(ac), 1, 2));
    assert!(alert_needs_post(&Some(empty_roster()), 1, 9));
    assert!(alert_needs_post(&Some(empty_roster()), 7, 2));
}

#[test]
fn search_minimums_and_values() {
    assert_eq!(search_minimum(SearchKey::TradeSkill(war_helper::trade_skill::TradeSkill::Mining), None), 200);
    assert_eq!(search_minimum(SearchKey::Weapon(Weapon::Bow), None), 20);
    assert_eq!(search_minimum(SearchKey::GearScore, None), 625);
    assert_eq!(search_minimum(SearchKey::Level, None), 60);
    assert_eq!(search_minimum(SearchKey::Level, Some(30)), 30);
    assert_eq!(search_minimum(SearchKey::Level, Some(300)), 300);
    assert_eq!(search_minimum(SearchKey::Level, Some(-5)), 0);
    assert_eq!(search_minimum(SearchKey::GearScore, Some(70_000)), 65535);
    assert_eq!(search_minimum(SearchKey::GearScore, Some(600)), 600);
    let p = profile("Foo", 450, Some((Weapon::Rapier, 15)), None);
    assert_eq!(search_value(SearchKey::GearScore, &p), 450);
    assert_eq!(search_value(SearchKey::Weapon(Weapon::Rapier), &p), 15);
    assert_eq!(search_value(SearchKey::Level, &p), 1);
    assert_eq!(search_subject(SearchKey::Weapon(Weapon::GreatAxe)), "Great Axe");
    assert_eq!(search_subject(SearchKey::GearScore), "Gear Score");
}

#[test]
fn bucket_value_trims_whitespace_around_lines() {
    let p = profile("Foo\u{3000} ", 10, None, None);
    let book = vec![(1u64, p)];
    assert_eq!(render_bucket_value(&vec![1], &book, false), "`010`Foo");
}
