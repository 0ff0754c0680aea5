use slime_server::admin::{
    account_page, ban_is_expired, check_ban_type_filter, is_session_of, online_player, player_ban_value,
    search_pattern,
};
use slime_server::anticheat::movement::{FindingKind, MovementFinding};
use slime_server::anticheat::types::CheatResult;
use slime_server::config::DefaultsConfig;
use slime_server::game::{PendingClanInvite, PlayerSession};
use slime_server::handlers::bbs::bbs_page_count;
use slime_server::handlers::clan_members::{
    build_clan_status, clan_has_room, color_channels, kick_position, leavable_clan, led_clan, pack_color,
};
use slime_server::handlers::items::tool_to_equip;
use slime_server::handlers::mail::{mail_item_slot, mail_points_to_bank};
use slime_server::handlers::movement::{movement_precheck, movement_verdict, MovementPrecheck, MovementVerdict};
use slime_server::text::text_less;

fn session() -> PlayerSession {
    let d = DefaultsConfig {
        spawn_x: 1,
        spawn_y: 2,
        spawn_room: 3,
        outfit: 0,
        accessory1: 0,
        accessory2: 0,
        signature: 0,
        signature_bg: 0,
        emotes: [0; 5],
        starting_items: [0; 9],
        starting_outfits: [0; 9],
        starting_accessories: [0; 9],
        starting_tools: [0; 9],
        unlocked_mail_paper: vec![],
    };
    PlayerSession::new("9.9.9.9".to_string(), &d, 0)
}

fn invite(clan_id: i64) -> PendingClanInvite {
    PendingClanInvite { clan_id, clan_name: "Slimes".to_string(), inviter_id: 4, invited_at: 0 }
}

#[test]
fn test_leader_rules() {
    assert_eq!(led_clan(Some(5), true), Some(5));
    assert_eq!(led_clan(Some(5), false), None);
    assert_eq!(led_clan(None, true), None);
    assert_eq!(leavable_clan(Some(5), false), Some(5));
    assert_eq!(leavable_clan(Some(5), true), None);
    assert!(clan_has_room(4, 5));
    assert!(!clan_has_room(5, 5));
    assert_eq!(kick_position(2, 3), Some(2));
    assert_eq!(kick_position(3, 3), None);
}

#[test]
fn test_invite_answers() {
    let mut s = session();
    assert_eq!(s.answer_clan_invite(1), None);
    s.receive_clan_invite(invite(8));
    assert_eq!(s.answer_clan_invite(2), None);
    assert!(s.pending_clan_invite.is_none());
    s.receive_clan_invite(invite(8));
    assert_eq!(s.answer_clan_invite(1), Some(8));
    assert!(s.pending_clan_invite.is_none());
    s.join_clan(8, true);
    assert_eq!(s.clan_id, Some(8));
    assert!(s.has_clan_base && !s.is_clan_leader);
    s.receive_clan_invite(invite(9));
    assert_eq!(s.answer_clan_invite(1), None);
    s.leave_clan();
    assert_eq!(s.clan_id, None);
    assert!(!s.has_clan_base);
}

#[test]
fn test_invite_cooldown() {
    let mut s = session();
    assert!(s.start_clan_invite(4, 1_000));
    assert!(!s.start_clan_invite(4, 15_999));
    assert!(s.start_clan_invite(5, 2_000));
    assert!(s.start_clan_invite(4, 16_000));
    assert!(!s.start_clan_invite(4, 30_000));
}

#[test]
fn test_colors_and_status() {
    assert_eq!(pack_color(0x12, 0x34, 0x56), 0x123456);
    assert_eq!(color_channels(0x123456), (0x12, 0x34, 0x56));
    assert_eq!(color_channels(0x7F_AB_CD_EF), (0xAB, 0xCD, 0xEF));
    assert_eq!(build_clan_status(1, 300, 2, 1), vec![130, 0, 5, 0x2C, 0x01, 0, 0]);
    assert_eq!(build_clan_status(2, 300, 2, 1), vec![130, 0, 5, 0x2C, 0x01, 0, 0, 2, 1]);
    assert_eq!(build_clan_status(2, 0, 1, 0), vec![130, 0, 5, 0, 0, 0, 0, 1, 0]);
}

#[test]
fn test_movement_decisions() {
    assert_eq!(movement_precheck(false, true, Some((1, 1))), MovementPrecheck::Drop);
    assert_eq!(movement_precheck(true, false, None), MovementPrecheck::Drop);
    assert_eq!(movement_precheck(true, true, Some((6000, 1))), MovementPrecheck::Drop);
    assert_eq!(movement_precheck(true, true, Some((10, 20))), MovementPrecheck::Check { x: 10, y: 20 });
    assert_eq!(movement_precheck(true, true, None), MovementPrecheck::PassOn);
    let f = MovementFinding { kind: FindingKind::Teleport, distance_sq: 1, elapsed_nanos: 1 };
    assert_eq!(movement_verdict(&CheatResult::Clean, true), MovementVerdict::Apply);
    assert_eq!(movement_verdict(&CheatResult::Suspicious { reason: f, severity: 3 }, true), MovementVerdict::Apply);
    assert_eq!(movement_verdict(&CheatResult::Cheating { reason: f }, false), MovementVerdict::Drop);
    assert_eq!(movement_verdict(&CheatResult::Cheating { reason: f }, true), MovementVerdict::DropAndKick);
}

#[test]
fn test_tool_equip() {
    let tools = [0, 3, 0, 0, 0, 0, 0, 0, 1];
    assert_eq!(tool_to_equip(2, &tools), Some(2));
    assert_eq!(tool_to_equip(9, &tools), Some(9));
    assert_eq!(tool_to_equip(1, &tools), None);
    assert_eq!(tool_to_equip(0, &tools), None);
    assert_eq!(tool_to_equip(10, &tools), None);
}

#[test]
fn test_mail_claims() {
    assert_eq!(mail_item_slot(0, &[0; 9]), None);
    assert_eq!(mail_item_slot(25, &[1, 1, 0, 0, 0, 0, 0, 0, 0]), Some(3));
    assert_eq!(mail_item_slot(25, &[1; 9]), None);
    assert_eq!(mail_points_to_bank(100, 0), None);
    assert_eq!(mail_points_to_bank(100, 50), Some(150));
}

#[test]
fn test_admin_helpers() {
    assert_eq!(player_ban_value("account", "bob", "aa:bb", None), Ok("bob".to_string()));
    assert_eq!(player_ban_value("mac", "bob", "aa:bb", None), Ok("aa:bb".to_string()));
    assert_eq!(player_ban_value("ip", "bob", "aa:bb", Some("1.2.3.4")), Ok("1.2.3.4".to_string()));
    assert_eq!(
        player_ban_value("ip", "bob", "aa:bb", None),
        Err("Cannot ban by IP: player is not online".to_string())
    );
    assert_eq!(
        player_ban_value("dns", "bob", "aa:bb", None),
        Err("Invalid ban_type. Must be 'ip', 'mac', or 'account'".to_string())
    );
    assert_eq!(account_page(None, None), (50, 0));
    assert_eq!(account_page(Some(500), Some(20)), (200, 20));
    assert_eq!(account_page(Some(10), None), (10, 0));
    assert_eq!(search_pattern("BoB"), "%bob%");
    assert!(ban_is_expired(Some("2024-01-01 00:00:00"), "2024-06-01 00:00:00"));
    assert!(!ban_is_expired(Some("2025-01-01 00:00:00"), "2024-06-01 00:00:00"));
    assert!(!ban_is_expired(None, "2024-06-01 00:00:00"));
    assert!(check_ban_type_filter(Some("mac")).is_ok());
    assert!(check_ban_type_filter(None).is_ok());
    assert_eq!(check_ban_type_filter(Some("x")), Err("Invalid ban_type filter".to_string()));
}

#[test]
fn test_online_listing() {
    let mut s = session();
    assert!(online_player(&s).is_none());
    s.is_authenticated = true;
    assert!(online_player(&s).is_none());
    s.username = Some("bob".to_string());
    s.points = 42;
    let p = online_player(&s).unwrap();
    assert_eq!((p.username.as_str(), p.player_id, p.room_id, p.points), ("bob", 0, 3, 42));
    assert!(is_session_of(&s, "bob"));
    assert!(!is_session_of(&s, "Bob"));
    s.is_authenticated = false;
    assert!(!is_session_of(&s, "bob"));
}

#[test]
fn test_bbs_pages_and_text() {
    assert_eq!(bbs_page_count(0), 0);
    assert_eq!(bbs_page_count(1), 1);
    assert_eq!(bbs_page_count(4), 1);
    assert_eq!(bbs_page_count(5), 2);
    assert!(text_less("abc", "abd"));
    assert!(text_less("ab", "abc"));
    assert!(!text_less("abc", "abc"));
    assert!(!text_less("b", "abc"));
    assert_eq!(search_pattern("ÄBC"), "%äbc%");
}
