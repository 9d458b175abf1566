//! The `GameEngine` DOM object that lets page script ask the embedder to
//! spawn an enemy, and the embedder's answer that the enemy died.
//! Coordinates travel as the bit patterns of their `f32` values, so they
//! arrive exactly as they were given.

use vstd::prelude::*;

verus! {

/// The request a page sends to the embedder through `gameEngine.spawnEnemy`.
pub struct SpawnEnemyMessage<W> {
    /// The web view the page lives in, when it lives in a window.
    pub webview_id: Option<W>,
    pub enemy_id: String,
    /// The bits of the `f32` x coordinate.
    pub x_bits: u32,
    /// The bits of the `f32` y coordinate.
    pub y_bits: u32,
}

/// The `enemydied` event the embedder fires back at the page.
pub struct EnemyDiedEvent {
    pub enemy_id: String,
    pub x_bits: u32,
    pub y_bits: u32,
}

/// The Rust-side state of the DOM object behind `window.gameEngine`. The
/// object holds nothing but its JavaScript reflector, which the DOM
/// bindings own; the library keeps no state for it.
pub struct GameEngine;

impl GameEngine {
    /// A fresh object, before the DOM bindings reflect it into JavaScript.
    pub fn new_inherited() -> (g: GameEngine)
        ensures
            g == GameEngine,
    {
        GameEngine
    }

    /// `gameEngine.spawnEnemy(enemyId, x, y)`: forwards the request to the
    /// embedder unchanged and answers `true`.
    #[allow(non_snake_case)]
    pub fn SpawnEnemy<W>(&self, enemy_id: String, x_bits: u32, y_bits: u32, webview_id: Option<W>) -> (r: (bool, SpawnEnemyMessage<W>))
        ensures
            r.0,
            r.1 == spawn_request(enemy_id, x_bits, y_bits, webview_id),
            r.1.enemy_id == enemy_id,
            r.1.x_bits == x_bits,
            r.1.y_bits == y_bits,
            r.1.webview_id == webview_id,
    {
        (true, SpawnEnemyMessage { webview_id, enemy_id, x_bits, y_bits })
    }
}

/// The request that `spawnEnemy` sends for the given arguments.
pub open spec fn spawn_request<W>(enemy_id: String, x_bits: u32, y_bits: u32, webview_id: Option<W>) -> SpawnEnemyMessage<W> {
    SpawnEnemyMessage { webview_id, enemy_id, x_bits, y_bits }
}

/// The `enemydied` event fired for an enemy spawned with the given values.
pub open spec fn died_event(enemy_id: String, x_bits: u32, y_bits: u32) -> EnemyDiedEvent {
    EnemyDiedEvent { enemy_id, x_bits, y_bits }
}

/// The embedder's answer to a spawn request: the enemy it names dies at the
/// place it was spawned.
pub fn enemy_died_reply(enemy_id: String, x_bits: u32, y_bits: u32) -> (e: EnemyDiedEvent)
    ensures
        e == died_event(enemy_id, x_bits, y_bits),
        e.enemy_id == enemy_id,
        e.x_bits == x_bits,
        e.y_bits == y_bits,
{
    EnemyDiedEvent { enemy_id, x_bits, y_bits }
}

/// The round trip from page script to the embedder and back: the event the
/// embedder fires for a spawn request names the enemy the page asked for,
/// at the coordinates it gave, bit for bit.
pub proof fn lemma_spawn_round_trip<W>(enemy_id: String, x_bits: u32, y_bits: u32, webview_id: Option<W>)
    ensures
        ({
            let request = spawn_request(enemy_id, x_bits, y_bits, webview_id);
            let reply = died_event(request.enemy_id, request.x_bits, request.y_bits);
            &&& reply.enemy_id == enemy_id
            &&& reply.x_bits == x_bits
            &&& reply.y_bits == y_bits
            &&& request.webview_id == webview_id
        }),
{
}

/// Each step forwards its values untouched: the request carries exactly the
/// enemy, the coordinates (x as x, y as y) and the web view it was given,
/// and the `enemydied` event carries exactly the enemy and coordinates it
/// was built from.
pub proof fn lemma_values_forwarded_unchanged<W>(enemy_id: String, x_bits: u32, y_bits: u32, webview_id: Option<W>)
    ensures
        spawn_request(enemy_id, x_bits, y_bits, webview_id).enemy_id == enemy_id,
        spawn_request(enemy_id, x_bits, y_bits, webview_id).x_bits == x_bits,
        spawn_request(enemy_id, x_bits, y_bits, webview_id).y_bits == y_bits,
        spawn_request(enemy_id, x_bits, y_bits, webview_id).webview_id == webview_id,
        died_event(enemy_id, x_bits, y_bits).enemy_id == enemy_id,
        died_event(enemy_id, x_bits, y_bits).x_bits == x_bits,
        died_event(enemy_id, x_bits, y_bits).y_bits == y_bits,
{
}

} // verus!
