use servo_bridge::game_engine::{enemy_died_reply, GameEngine};

fn spawn_and_echo(engine: &GameEngine, id: &str, x: f32, y: f32) -> (bool, String, f32, f32, String, f32, f32) {
    let (answered, msg) = engine.SpawnEnemy(id.to_string(), x.to_bits(), y.to_bits(), Some(7u64));
    assert_eq!(msg.webview_id, Some(7u64));
    let reply = enemy_died_reply(msg.enemy_id.clone(), msg.x_bits, msg.y_bits);
    (
        answered,
        msg.enemy_id,
        f32::from_bits(msg.x_bits),
        f32::from_bits(msg.y_bits),
        reply.enemy_id,
        f32::from_bits(reply.x_bits),
        f32::from_bits(reply.y_bits),
    )
}

#[test]
fn test_bridge_roundtrip_suite() {
    let engine = GameEngine::new_inherited();

    // JS -> Rust: the spawn request reaches the embedder with its values.
    let (_, id, x, y, _, _, _) = spawn_and_echo(&engine, "goblin", 10.5, 20.0);
    assert_eq!(id.as_str(), "goblin", "wrong enemy_id");
    assert!((x - 10.5).abs() < f32::EPSILON, "wrong x: {x}");
    assert!((y - 20.0).abs() < f32::EPSILON, "wrong y: {y}");

    // Rust -> JS: the enemydied event carries the same values back.
    let (_, _, _, _, died_id, died_x, died_y) = spawn_and_echo(&engine, "orc", 3.0, 7.5);
    assert_eq!(died_id.as_str(), "orc", "wrong id in event");
    assert_eq!(died_x, 3.0);
    assert_eq!(died_y, 7.5);

    // spawnEnemy answers true.
    let (answered, _, _, _, _, _, _) = spawn_and_echo(&engine, "test", 0.0, 0.0);
    assert_eq!(answered, true, "spawnEnemy should return true");
}

#[test]
fn spawn_without_window_has_no_webview() {
    let engine = GameEngine::new_inherited();
    let (answered, msg) = engine.SpawnEnemy::<u64>("troll".to_string(), (-1.25f32).to_bits(), 0, None);
    assert!(answered);
    assert_eq!(msg.webview_id, None);
    assert_eq!(f32::from_bits(msg.x_bits), -1.25);
}
