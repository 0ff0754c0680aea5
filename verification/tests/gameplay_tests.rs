use slime_server::db::accounts::Account;
use slime_server::handlers::auth::{check_login, day_code, hash_new_password, login_decision, register_decision};
use slime_server::handlers::chat::{build_dice, build_emote, decide_emote, roll_die, EmoteOutcome};
use slime_server::handlers::mail::{claim_mail_points, mail_page_and_index};
use slime_server::handlers::planting::{decide_plant_set, get_growth_time, PlantSetOutcome};
use slime_server::handlers::quest::{
    build_quest_npc, quest_begin, quest_cancel, quest_clear, quest_reward, quest_step_inc, QuestState,
};
use slime_server::handlers::sell::{deposit_overflow, write_sell};

fn account(hash: &str, banned: bool) -> Account {
    Account {
        id: 1,
        username: "slime".to_string(),
        password_hash: hash.to_string(),
        mac_address: "00:11".to_string(),
        is_banned: banned,
        ban_reason: None,
        created_at: "2024-01-01 00:00:00".to_string(),
        last_login: None,
    }
}

#[test]
fn test_quest_lifecycle() {
    let s = quest_begin(3, false).unwrap();
    assert_eq!(s, QuestState { quest_id: 3, step: 1, var: 0 });
    assert_eq!(quest_begin(3, true), None);
    let s2 = quest_step_inc(s).unwrap();
    assert_eq!(s2.step, 2);
    assert_eq!(quest_clear(4, s2), None);
    assert_eq!(quest_clear(3, s2), Some(QuestState { quest_id: 0, step: 0, var: 0 }));
    assert_eq!(quest_cancel(QuestState { quest_id: 0, step: 0, var: 0 }), None);
    assert_eq!(quest_cancel(s2), Some(QuestState { quest_id: 0, step: 0, var: 0 }));
    assert_eq!(quest_step_inc(QuestState { quest_id: 0, step: 0, var: 0 }), None);
}

#[test]
fn test_quest_reward() {
    let running = QuestState { quest_id: 1, step: 2, var: 0 };
    let items = [0, 7, 4, 4, 0, 0, 0, 0, 0];
    assert_eq!(quest_reward(1, 2, running, &items), Some(3));
    assert_eq!(quest_reward(1, 1, running, &items), None);
    assert_eq!(quest_reward(1, 2, running, &[0; 9]), None);
    assert_eq!(quest_reward(2, 2, QuestState { quest_id: 2, step: 2, var: 0 }, &items), None);
    assert_eq!(build_quest_npc(5, true), vec![87, 0, 5, 1]);
}

#[test]
fn test_growth_times() {
    assert_eq!(get_growth_time(9, 0, 0), 240);
    assert_eq!(get_growth_time(24, 0, 0), 360);
    assert_eq!(get_growth_time(9, 3, 11), 192);
    assert_eq!(get_growth_time(9, 0, 12), 156);
    assert_eq!(get_growth_time(24, 0, 13), 180);
    assert_eq!(get_growth_time(24, 5, 11), 288);
}

#[test]
fn test_plant_set() {
    let items = [9, 24, 5, 0, 0, 0, 0, 0, 0];
    assert_eq!(decide_plant_set(1, &items, false), PlantSetOutcome::Plant { slot: 1, seed_id: 9, growth_minutes: 240 });
    assert_eq!(decide_plant_set(2, &items, false), PlantSetOutcome::Plant { slot: 2, seed_id: 24, growth_minutes: 360 });
    assert_eq!(decide_plant_set(3, &items, false), PlantSetOutcome::Ignored);
    assert_eq!(decide_plant_set(4, &items, false), PlantSetOutcome::Ignored);
    assert_eq!(decide_plant_set(0, &items, false), PlantSetOutcome::Ignored);
    assert_eq!(
        decide_plant_set(2, &items, true),
        PlantSetOutcome::ReturnSeed { message: vec![41, 0, 2, 24, 0] }
    );
}

#[test]
fn test_emotes() {
    let emotes = [4, 13, 0, 0, 0];
    assert_eq!(decide_emote(1, &emotes), EmoteOutcome::Show { emote_id: 4, dice: false });
    assert_eq!(decide_emote(2, &emotes), EmoteOutcome::Show { emote_id: 13, dice: true });
    assert_eq!(decide_emote(3, &emotes), EmoteOutcome::EmptySlot);
    assert_eq!(decide_emote(6, &emotes), EmoteOutcome::BadSlot);
    assert_eq!(build_emote(0x0102, 4, None), vec![23, 0, 2, 1, 4]);
    assert_eq!(build_emote(1, 13, Some(6)), vec![23, 0, 1, 0, 13, 6]);
    assert_eq!(build_dice(3), vec![93, 0, 3]);
    for _ in 0..50 {
        let r = roll_die();
        assert!((1..=6).contains(&r));
    }
}

#[test]
fn test_mail_positions_and_points() {
    assert_eq!(mail_page_and_index(1), (0, 0));
    assert_eq!(mail_page_and_index(5), (0, 4));
    assert_eq!(mail_page_and_index(6), (1, 0));
    assert_eq!(mail_page_and_index(0), (0, usize::MAX));
    assert_eq!(claim_mail_points(100, 50, 1000), (150, 50));
    assert_eq!(claim_mail_points(990, 50, 1000), (1000, 10));
}

#[test]
fn test_sell_helpers() {
    assert_eq!(write_sell(0x0102), vec![54, 0, 2, 1, 0, 0]);
    assert_eq!(deposit_overflow(100, 50, 1000), 150);
    assert_eq!(deposit_overflow(990, 50, 1000), 1000);
}

#[test]
fn test_login_order_of_checks() {
    assert_eq!(login_decision(true, false, false, Some((false, Some(true))), false), Ok(()));
    assert_eq!(login_decision(false, true, true, None, true), Err(5));
    assert_eq!(login_decision(true, true, true, None, true), Err(7));
    assert_eq!(login_decision(true, false, true, None, true), Err(8));
    assert_eq!(login_decision(true, false, false, None, true), Err(2));
    assert_eq!(login_decision(true, false, false, Some((true, Some(true))), false), Err(6));
    assert_eq!(login_decision(true, false, false, Some((false, Some(false))), false), Err(3));
    assert_eq!(login_decision(true, false, false, Some((false, None)), false), Err(3));
    assert_eq!(login_decision(true, false, false, Some((false, Some(true))), true), Err(4));
}

#[test]
fn test_login_with_real_hash() {
    let hash = hash_new_password("hunter2").unwrap();
    assert_ne!(hash, "hunter2");
    assert_eq!(hash.len(), 60);
    assert!(hash.starts_with("$2b$12$"));
    let acc = account(&hash, false);
    assert_eq!(check_login(true, false, false, Some(&acc), "hunter2", false), Ok(()));
    assert_eq!(check_login(true, false, false, Some(&acc), "wrong", false), Err(3));
    assert_eq!(check_login(true, false, false, Some(&acc), "hunter2", true), Err(4));
    assert_eq!(check_login(true, false, false, None, "hunter2", false), Err(2));
    let broken = account("not a hash", false);
    assert_eq!(check_login(true, false, false, Some(&broken), "hunter2", false), Err(3));
    let banned = account(&hash, true);
    assert_eq!(check_login(true, false, false, Some(&banned), "hunter2", false), Err(6));
}

#[test]
fn test_registration() {
    assert_eq!(register_decision(true, false, false, false), None);
    assert_eq!(register_decision(false, false, false, false), Some(2));
    assert_eq!(register_decision(true, true, false, false), Some(3));
    assert_eq!(register_decision(true, false, true, false), Some(4));
    assert_eq!(register_decision(true, false, false, true), Some(2));
}

#[test]
fn test_day_codes() {
    assert_eq!(day_code(0), 1);
    assert_eq!(day_code(6), 7);
}
