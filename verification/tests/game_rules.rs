use dodge_the_creeps::game::{FireSound, GameCommand, GameScene, GameTimer, Milestone};

#[test]
fn the_score_starts_at_zero() {
    assert_eq!(GameScene::init().score(), 0);
}

#[test]
fn a_tick_adds_one_to_the_score_and_shows_it() {
    let mut scene = GameScene::init();
    assert_eq!(scene.on_score_timer_timeout(), vec![GameCommand::UpdateScore(1)]);
    assert_eq!(scene.score(), 1);
    assert_eq!(scene.on_score_timer_timeout(), vec![GameCommand::UpdateScore(2)]);
    assert_eq!(scene.score(), 2);
}

#[test]
fn milestones_are_greeted_at_their_scores_only() {
    let mut scene = GameScene::init();
    for expected in 1..=60 {
        let commands = scene.on_score_timer_timeout();
        assert_eq!(scene.score(), expected);
        let milestone = match expected {
            5 => Some(Milestone::Score5),
            10 => Some(Milestone::Score10),
            20 => Some(Milestone::Score20),
            25 => Some(Milestone::Score25),
            35 => Some(Milestone::Score35),
            50 => Some(Milestone::Score50),
            _ => None,
        };
        match milestone {
            Some(reached) => assert_eq!(
                commands,
                vec![GameCommand::UpdateScore(expected), GameCommand::PlayMilestone(reached)]
            ),
            None => assert_eq!(commands, vec![GameCommand::UpdateScore(expected)]),
        }
    }
}

#[test]
fn the_last_tick_that_fits() {
    let mut scene = GameScene::init();
    for _ in 0..3 {
        scene.on_score_timer_timeout();
    }
    assert_eq!(scene.score(), 3);
    assert_eq!(Milestone::at(i32::MAX), None);
    assert_eq!(Milestone::at(i32::MIN), None);
}

#[test]
fn milestone_scores() {
    assert_eq!(Milestone::Score5.score(), 5);
    assert_eq!(Milestone::Score10.score(), 10);
    assert_eq!(Milestone::Score20.score(), 20);
    assert_eq!(Milestone::Score25.score(), 25);
    assert_eq!(Milestone::Score35.score(), 35);
    assert_eq!(Milestone::Score50.score(), 50);
}

#[test]
fn a_milestone_is_reached_at_its_own_score() {
    let all = [
        Milestone::Score5,
        Milestone::Score10,
        Milestone::Score20,
        Milestone::Score25,
        Milestone::Score35,
        Milestone::Score50,
    ];
    for milestone in all {
        assert_eq!(Milestone::at(milestone.score()), Some(milestone));
    }
    for score in -10..=100 {
        match Milestone::at(score) {
            Some(milestone) => assert_eq!(milestone.score(), score),
            None => assert!(all.iter().all(|milestone| milestone.score() != score)),
        }
    }
}

#[test]
fn a_new_game_resets_the_score() {
    let mut scene = GameScene::init();
    for _ in 0..7 {
        scene.on_score_timer_timeout();
    }
    assert_eq!(scene.score(), 7);
    assert_eq!(
        scene.new_game(),
        vec![
            GameCommand::StartTimer(GameTimer::Start),
            GameCommand::StartPlayer,
            GameCommand::UpdateScore(0),
            GameCommand::ShowMessage("Die!"),
            GameCommand::PlayMusic,
        ]
    );
    assert_eq!(scene.score(), 0);
    assert_eq!(scene.on_score_timer_timeout(), vec![GameCommand::UpdateScore(1)]);
}

#[test]
fn game_over_stops_the_timers_and_the_music() {
    let mut scene = GameScene::init();
    scene.on_score_timer_timeout();
    assert_eq!(
        scene.game_over(),
        vec![
            GameCommand::StopTimer(GameTimer::Score),
            GameCommand::StopTimer(GameTimer::Mob),
            GameCommand::ShowGameOver,
            GameCommand::StopMusic,
            GameCommand::PlayDeathSound,
        ]
    );
    assert_eq!(scene.score(), 1);
}

#[test]
fn the_start_timer_sets_enemies_and_score_going() {
    assert_eq!(
        GameScene::init().on_start_timer_timeout(),
        vec![GameCommand::StartTimer(GameTimer::Mob), GameCommand::StartTimer(GameTimer::Score)]
    );
}

#[test]
fn the_five_fire_sounds() {
    assert_eq!(
        GameScene::fire_sounds(),
        vec![
            FireSound::First,
            FireSound::Second,
            FireSound::Third,
            FireSound::Fourth,
            FireSound::Fifth
        ]
    );
}

#[test]
fn the_sound_picked_is_played() {
    assert_eq!(
        GameScene::play_fireball(Some(FireSound::Third)),
        vec![GameCommand::PlayFireSound(FireSound::Third)]
    );
    assert_eq!(GameScene::play_fireball(None), vec![]);
}

#[test]
fn an_enemy_appears_and_then_sounds() {
    assert_eq!(
        GameScene::spawn_mob(1234, Some(FireSound::Fifth)),
        vec![GameCommand::SpawnMob(1234), GameCommand::PlayFireSound(FireSound::Fifth)]
    );
    assert_eq!(GameScene::spawn_mob(0, None), vec![GameCommand::SpawnMob(0)]);
    assert_eq!(
        GameScene::spawn_mob(u16::MAX, Some(FireSound::First)),
        vec![GameCommand::SpawnMob(u16::MAX), GameCommand::PlayFireSound(FireSound::First)]
    );
}

#[test]
fn a_fireball_plays_one_of_the_five_sounds() {
    let scene = GameScene::init();
    let sounds = GameScene::fire_sounds();
    for _ in 0..200 {
        let commands = scene.spawn_fireball();
        assert_eq!(commands.len(), 1);
        match commands[0] {
            GameCommand::PlayFireSound(sound) => assert!(sounds.contains(&sound)),
            other => panic!("not a fire sound: {:?}", other),
        }
    }
}

#[test]
fn fireballs_do_not_all_sound_alike() {
    let scene = GameScene::init();
    let first = scene.spawn_fireball();
    let mut differs = false;
    for _ in 0..500 {
        if scene.spawn_fireball() != first {
            differs = true;
        }
    }
    assert!(differs);
}

#[test]
fn an_enemy_appears_below_the_progress_limit() {
    assert_eq!(GameScene::PROGRESS_LIMIT, 65535);
    let scene = GameScene::init();
    let sounds = GameScene::fire_sounds();
    for _ in 0..500 {
        let commands = scene.on_mob_timer_timeout();
        assert_eq!(commands.len(), 2);
        match commands[0] {
            GameCommand::SpawnMob(progress) => assert!(progress < GameScene::PROGRESS_LIMIT),
            other => panic!("not a spawn: {:?}", other),
        }
        match commands[1] {
            GameCommand::PlayFireSound(sound) => assert!(sounds.contains(&sound)),
            other => panic!("not a fire sound: {:?}", other),
        }
    }
}

#[test]
fn enemies_do_not_all_appear_in_one_place() {
    let scene = GameScene::init();
    let first = scene.on_mob_timer_timeout()[0];
    let mut differs = false;
    for _ in 0..200 {
        if scene.on_mob_timer_timeout()[0] != first {
            differs = true;
        }
    }
    assert!(differs);
}

#[test]
fn an_enemy_timer_tick_leaves_the_score_alone() {
    let mut scene = GameScene::init();
    scene.on_score_timer_timeout();
    scene.on_mob_timer_timeout();
    scene.spawn_fireball();
    assert_eq!(scene.score(), 1);
}
