use rl_replay_api::payload::{BallFrame, BallFrameData, Payload, PayloadDataType, PlayerFrame, PlayerFrameData};
use rl_replay_api::pickup::small_boost_pads;
use rl_replay_api::player::{Player, PlayerData, PlayerId, Team};
use rl_replay_api::replay::{Database, Replay};
use rl_replay_api::rigid_body::{RigidBody, Vector3};
use rl_replay_api::stat_collector::StatCollector;
use rl_replay_api::stats::Stat;

fn at(key: u64, team: Team, x: i32, y: i32) -> PlayerFrame {
    PlayerFrame {
        id: PlayerId::new(key),
        team,
        rigid_body: Some(RigidBody::new(false, Vector3::new(x, y, 0), None)),
        current_boost_amount: Some(5000),
        boost_active: false,
        jump_active: false,
        double_jump_active: false,
        dodge_active: false,
    }
}

fn payload(frames: Vec<PlayerFrame>) -> Payload {
    let mut data = PlayerFrameData::new();
    for f in frames {
        data.add_frame(&f.id, &f);
    }
    let mut ball = BallFrameData::new();
    ball.add_frame(&BallFrame::new_from_processor(None));
    let mut p = Payload::new();
    p.add_data(PayloadDataType::Ball(ball));
    p.add_data(PayloadDataType::Player(data));
    p
}

fn small_pickups(player: &Player) -> u32 {
    match player.stats[0] {
        Stat::Boost(b) => b.small_boost_pickups,
        _ => panic!("the first statistic is the boost statistic"),
    }
}

fn two_players() -> StatCollector {
    let mut collector = StatCollector::new();
    collector.add_player(PlayerId::new(10), "A".to_string(), true);
    collector.add_player(PlayerId::new(20), "B".to_string(), false);
    collector
}

#[test]
fn end_to_end_single_pickup() {
    let pad = small_boost_pads()[0];
    let frames = vec![
        (0u64, payload(vec![at(10, Team::Zero, pad.x, pad.y), at(20, Team::One, 300000, 300000)])),
        (33u64, payload(vec![at(10, Team::Zero, 300000, -300000), at(20, Team::One, 300000, 300000)])),
    ];
    let players = two_players().analyze(&frames).get_player_data();
    assert_eq!(players.len(), 2);
    assert_eq!(players[0].name, "A");
    assert_eq!(players[0].team, Team::Zero);
    assert_eq!(players[1].id, PlayerId::new(20));
    assert_eq!(small_pickups(&players[0]), 1);
    assert_eq!(small_pickups(&players[1]), 0);
}

#[test]
fn end_to_end_first_player_wins_a_shared_pad() {
    let pad = small_boost_pads()[0];
    let frames = vec![
        (0u64, payload(vec![at(10, Team::Zero, pad.x, pad.y), at(20, Team::One, pad.x, pad.y)])),
        (33u64, payload(vec![at(10, Team::Zero, pad.x, pad.y), at(20, Team::One, pad.x, pad.y)])),
    ];
    let players = two_players().analyze(&frames).get_player_data();
    assert_eq!(small_pickups(&players[0]), 1);
    assert_eq!(small_pickups(&players[1]), 0);
}

#[test]
fn end_to_end_pad_comes_back_after_cooldown() {
    let pad = small_boost_pads()[0];
    let on_pad = || payload(vec![at(10, Team::Zero, pad.x, pad.y)]);
    let frames = vec![(0u64, on_pad()), (4999u64, on_pad()), (5000u64, on_pad()), (5001u64, on_pad())];
    let players = two_players().analyze(&frames).get_player_data();
    assert_eq!(small_pickups(&players[0]), 2);
}

#[test]
fn process_frame_counts_movement_and_location() {
    let mut collector = two_players();
    collector.process_frame(&payload(vec![at(10, Team::Zero, 0, 0), at(20, Team::One, 100, 0)]), 0);
    collector.process_frame(&payload(vec![at(10, Team::Zero, 300, 400)]), 33);
    let players = collector.analyze(&Vec::new()).get_player_data();
    match players[0].stats[2] {
        Stat::Movement(m) => {
            assert_eq!(m.distance_traveled, 700);
            assert_eq!(m.frames_on_ground, 2);
        },
        _ => panic!("the third statistic is the movement statistic"),
    }
    match players[1].stats[1] {
        Stat::Location(l) => {
            assert_eq!(l.frames_farthest_back, 1);
            assert_eq!(l.frames_offensive_half, 1);
        },
        _ => panic!("the second statistic is the location statistic"),
    }
}

#[test]
fn player_data_keeps_order() {
    let mut data = PlayerData::new();
    data.add_player(Player::new_from_processor(PlayerId::new(1), "x".to_string(), true));
    data.add_player(Player::new_from_processor(PlayerId::new(2), "y".to_string(), false));
    let players = data.get_player_data();
    assert_eq!(players[0].name, "x");
    assert_eq!(players[1].team, Team::One);
    assert_eq!(players[0].stats.len(), 3);
}

#[test]
fn create_replay_stamps_id_and_times() {
    let mut db = Database::new();
    let stored = db.create_replay(Replay {
        id: None,
        title: "final".to_string(),
        description: Some("overtime".to_string()),
        created_at: None,
        updated_at: None,
    });
    let id = stored.id.clone().unwrap();
    assert_eq!(id.len(), 36);
    assert_eq!(id.matches('-').count(), 4);
    assert_eq!(stored.title, "final");
    assert!(stored.created_at.unwrap() > 0);
    assert_eq!(stored.created_at, stored.updated_at);
    assert_eq!(db.todos.len(), 1);
    assert_eq!(db.todos[0].id, stored.id);
}

#[test]
fn core_starts_at_zero() {
    let core = rl_replay_api::player::Core::new();
    assert!(!core.is_team_zero);
    assert_eq!(core.score + core.goals + core.assists + core.saves + core.shots, 0);
    assert_eq!(core.demos_inflicted + core.demos_taken, 0);
}
