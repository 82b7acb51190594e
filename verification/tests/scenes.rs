use starframe::elements::scenes::{
    AsScene, HostFrame, PlayOutcome, SceneManager, ScriptedReply, ScriptedScene,
};
use starframe::elements::Vector2;
use starframe::scenes::menu::MainScreen;
use starframe::scenes::opening::Opening;
use starframe::scenes::AppScene;

fn idle_host() -> HostFrame {
    HostFrame {
        dt_ms: 16,
        pointer: Vector2 { x: -100, y: -100 },
        mouse_down: false,
        mouse_pressed: false,
        screen: Vector2 { x: 640, y: 480 },
    }
}

fn scripted(name: &str, reply: ScriptedReply) -> ScriptedScene {
    ScriptedScene::new(name, reply)
}

#[test]
fn jump_chain_runs_the_target_scene_in_the_same_tick() {
    let mut manager: SceneManager<ScriptedScene> = SceneManager::new();
    manager.push_scene(scripted("A", ScriptedReply::JumpTo(String::from("B"))));
    manager.push_scene(scripted("B", ScriptedReply::Stay));
    manager.set_current_scene("A");
    assert_eq!(manager.current_scene, Some(0));

    let outcome = manager.play_scene(&idle_host());
    assert_eq!(outcome, PlayOutcome::Settled);
    assert_eq!(manager.current_scene, Some(1));
    // One tick drove A once and, after the jump, B once — within the same
    // play_scene call.
    assert_eq!(manager.scene_list[0].updates, 1);
    assert_eq!(manager.scene_list[1].updates, 1);
}

#[test]
fn unknown_jump_target_unsets_the_current_scene() {
    let mut manager: SceneManager<ScriptedScene> = SceneManager::new();
    manager.push_scene(scripted("A", ScriptedReply::JumpTo(String::from("Nonexistent"))));
    manager.set_current_scene("A");
    assert_eq!(manager.current_scene, Some(0));

    let outcome = manager.play_scene(&idle_host());
    assert_eq!(outcome, PlayOutcome::Unresolved);
    assert_eq!(manager.current_scene, None);
    // The host loop must now notice the unresolved scene instead of
    // ticking again: play_scene's contract forbids a call in this state.
}

#[test]
fn exit_terminates_the_tick_without_driving_any_further_scene() {
    let mut manager: SceneManager<ScriptedScene> = SceneManager::new();
    manager.push_scene(scripted("A", ScriptedReply::Exit));
    manager.push_scene(scripted("B", ScriptedReply::Stay));
    manager.set_current_scene("A");

    let outcome = manager.play_scene(&idle_host());
    assert_eq!(outcome, PlayOutcome::Exited);
    assert_eq!(manager.current_scene, Some(0));
    assert_eq!(manager.scene_list[0].updates, 1);
    assert_eq!(manager.scene_list[1].updates, 0);
}

#[test]
fn ping_pong_jumps_are_cut_off_as_a_cycle() {
    let mut manager: SceneManager<ScriptedScene> = SceneManager::new();
    manager.push_scene(scripted("A", ScriptedReply::JumpTo(String::from("B"))));
    manager.push_scene(scripted("B", ScriptedReply::JumpTo(String::from("A"))));
    manager.set_current_scene("A");

    let outcome = manager.play_scene(&idle_host());
    assert_eq!(outcome, PlayOutcome::JumpCycle);
    assert!(manager.current_scene.is_some());
}

#[test]
fn lookup_is_first_match_on_duplicate_names() {
    let mut manager: SceneManager<ScriptedScene> = SceneManager::new();
    manager.push_scene(scripted("X", ScriptedReply::Stay));
    manager.push_scene(scripted("X", ScriptedReply::Exit));
    assert_eq!(manager.get_scene_by_name("X"), Some(0));
    assert_eq!(manager.get_scene_by_name("Y"), None);
}

#[test]
fn stay_keeps_the_current_scene() {
    let mut manager: SceneManager<ScriptedScene> = SceneManager::new();
    manager.push_scene(scripted("A", ScriptedReply::Stay));
    manager.set_current_scene("A");
    let outcome = manager.play_scene(&idle_host());
    assert_eq!(outcome, PlayOutcome::Settled);
    assert_eq!(manager.current_scene, Some(0));
    assert_eq!(manager.scene_list[0].updates, 1);
}

#[test]
fn opening_fades_then_jumps_to_the_menu() {
    let mut manager: SceneManager<AppScene> = SceneManager::new();
    manager.push_scene(AppScene::Opening(Opening::new()));
    manager.push_scene(AppScene::Menu(MainScreen::new(
        Vector2 { x: 640, y: 480 },
        64,
        64,
    )));
    manager.set_current_scene("Opening");
    assert_eq!(manager.current_scene, Some(0));

    let host = idle_host();
    // Fade in for 210 frames, hold for 840, fade out for 260: the jump to
    // the menu comes a few ticks after all three phases have run.
    let mut ticks = 0usize;
    while manager.current_scene == Some(0) {
        let outcome = manager.play_scene(&host);
        assert_eq!(outcome, PlayOutcome::Settled);
        ticks += 1;
        assert!(ticks < 2000, "the opening never jumped to the menu");
    }
    assert_eq!(manager.current_scene, Some(1));
    // 211 ticks of phase 0, 840 of phase 1, 260 of phase 2.
    assert_eq!(ticks, 1311);
}

#[test]
fn menu_exit_button_ends_the_program_loop() {
    let mut manager: SceneManager<AppScene> = SceneManager::new();
    manager.push_scene(AppScene::Menu(MainScreen::new(
        Vector2 { x: 640, y: 480 },
        64,
        64,
    )));
    manager.set_current_scene("Menu");

    // A frame with the pointer resting over the exit button's laid-out
    // rectangle (right-aligned at 640 - 10 - 100, a third of the screen
    // wide, at its initial height), freshly pressed.
    let host = HostFrame {
        dt_ms: 16,
        pointer: Vector2 { x: 600, y: 40 },
        mouse_down: true,
        mouse_pressed: true,
        screen: Vector2 { x: 640, y: 480 },
    };
    let outcome = manager.play_scene(&host);
    assert_eq!(outcome, PlayOutcome::Exited);
}

#[test]
fn menu_idle_frame_stays() {
    let mut manager: SceneManager<AppScene> = SceneManager::new();
    manager.push_scene(AppScene::Menu(MainScreen::new(
        Vector2 { x: 640, y: 480 },
        64,
        64,
    )));
    manager.set_current_scene("Menu");
    let outcome = manager.play_scene(&idle_host());
    assert_eq!(outcome, PlayOutcome::Settled);
    match &manager.scene_list[0] {
        AppScene::Menu(m) => {
            assert_eq!(m.frame_counter, 1);
            assert_eq!(m.state, 0);
            // Layout ran: the cover now fills the screen under the bar.
            assert_eq!(m.simple_cover.size, Vector2 { x: 600, y: 400 });
            // The curtains were resized to the screen halves.
            assert_eq!(m.opening_rectangle[0].width, 640);
            assert_eq!(m.opening_rectangle[0].height, 240);
        },
        _ => panic!("the registry lost the menu scene"),
    }
}
