//! The rules that belong to no single kind of thing: the passing of time
//! for decay timers, the stepping of sprite frames, and the pause key.

use crate::components::AnimationIndices;
use crate::fish::Fish;
use vstd::prelude::*;

verus! {

/// Whether the game is running or the menu is shown.
#[derive(Clone, Copy, Debug, PartialEq, Eq, Hash, Structural)]
pub enum GameState {
    Menu,
    Game,
}

impl Default for GameState {
    /// The game starts in the menu.
    fn default() -> (state: GameState)
        ensures
            state == GameState::Menu,
    {
        GameState::Menu
    }
}

impl GameState {
    /// The other state.
    pub open spec fn toggled(self) -> GameState {
        match self {
            GameState::Menu => GameState::Game,
            GameState::Game => GameState::Menu,
        }
    }
}

/// The frame of a sprite after a tick: the following frame when the frame
/// timer has just run out, the same frame otherwise.
pub fn animate_sprite(
    indices: &AnimationIndices,
    just_finished: bool,
    index: usize,
) -> (next: usize)
    requires
        index < usize::MAX,
    ensures
        next == if just_finished {
            indices.following(index)
        } else {
            index
        },
{
    if just_finished {
        indices.next_index(index)
    } else {
        index
    }
}

/// Lets `dt` milliseconds of every fish's life pass.
pub fn tick_decay_timers(fish: &mut Vec<Fish>, dt: u32)
    ensures
        final(fish)@.len() == old(fish)@.len(),
        forall|i: int|
            0 <= i < old(fish)@.len() ==> #[trigger] final(fish)@[i] == old(fish)@[i].older(dt),
{
    let mut i: usize = 0;
    while i < fish.len()
        invariant
            fish@.len() == old(fish)@.len(),
            i <= fish@.len(),
            forall|j: int| 0 <= j < i ==> #[trigger] fish@[j] == old(fish)@[j].older(dt),
            forall|j: int| i <= j < fish@.len() ==> #[trigger] fish@[j] == old(fish)@[j],
        decreases fish@.len() - i,
    {
        fish[i].decay_timer.timer.tick(dt);
        i += 1;
    }
}

/// The state after the pause key was or was not pressed: a press switches
/// between game and menu, unless the main menu is open, which keeps the key
/// for itself.
pub fn pause_the_game(
    escape_pressed: bool,
    menu_disabled: bool,
    game_state: GameState,
) -> (next: GameState)
    ensures
        next == if menu_disabled && escape_pressed {
            game_state.toggled()
        } else {
            game_state
        },
{
    if !menu_disabled {
        return game_state;
    }
    if escape_pressed {
        match game_state {
            GameState::Menu => GameState::Game,
            GameState::Game => GameState::Menu,
        }
    } else {
        game_state
    }
}

} // verus!
