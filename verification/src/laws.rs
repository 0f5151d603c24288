//! What holds of the game in every state: the invariant is kept by every
//! transition, and the rules of moving, eating and steering have the
//! consequences that players rely on.

use crate::model::{GameView, Key, MOVING_PERIOD, RESTART_TIME};
use crate::snake::{Direction, SnakeView};
use vstd::prelude::*;

verus! {

/// A new game satisfies the invariant, whatever the size of the board.
pub proof fn lemma_initial_wf(width: int, height: int)
    requires
        i32::MIN <= width <= i32::MAX,
        i32::MIN <= height <= i32::MAX,
    ensures
        GameView::initial(width, height).wf(),
        GameView::initial(width, height).unmoved(),
{
}

/// A move keeps the length of the snake and puts the head where
/// `next_head` said it would go.
pub proof fn lemma_move_keeps_length(s: SnakeView, dir: Option<Direction>)
    requires
        s.wf(),
    ensures
        s.moved(dir).head() == s.next_head(dir),
        s.moved(dir).body.len() == s.body.len(),
        s.moved(dir).wf(),
{
}

/// A move onto a cell that the snake does not occupy leaves a snake without
/// repeated cells, made of the new head and cells it had before; putting the
/// vacated cell back keeps it so.
pub proof fn lemma_move_keeps_cells_distinct(s: SnakeView, dir: Option<Direction>)
    requires
        s.wf(),
        s.body.no_duplicates(),
        !s.occupies(s.next_head(dir)),
    ensures
        s.moved(dir).body.no_duplicates(),
        s.moved(dir).grown().body.no_duplicates(),
        forall|p: (int, int)| #[trigger]
            s.moved(dir).grown().occupies(p) <==> p == s.next_head(dir) || s.occupies(p),
        forall|p: (int, int)| #[trigger]
            s.moved(dir).occupies(p) ==> p == s.next_head(dir) || s.occupies(p),
{
    let h = s.next_head(dir);
    let g = s.moved(dir).grown().body;
    assert forall|p: (int, int)| p == h || s.occupies(p) implies #[trigger] s.moved(
        dir,
    ).grown().occupies(p) by {
        if p == h {
            assert(g[0] == p);
        } else {
            let i = choose|i: int| 0 <= i < s.body.len() && s.body[i] == p;
            assert(g[i + 1] == p);
        }
    }
}

/// A forced move keeps the invariant, provided that the score has room for
/// the point if the move scores one.
pub proof fn lemma_stepped_wf(g: GameView, dir: Option<Direction>)
    requires
        g.wf(),
        g.scores(dir) ==> g.score < u32::MAX,
    ensures
        g.stepped(dir).wf(),
        g.alive(dir) ==> g.stepped(dir).settled(),
{
    if g.alive(dir) {
        lemma_move_keeps_cells_distinct(g.snake, dir);
    }
}

/// A forced move never shortens the snake and lengthens it by one cell at
/// most.
pub proof fn lemma_step_length(g: GameView, dir: Option<Direction>)
    requires
        g.snake.wf(),
    ensures
        g.snake.body.len() <= g.stepped(dir).snake.body.len() <= g.snake.body.len() + 1,
        g.score <= g.stepped(dir).score <= g.score + 1,
{
}

/// A key press never shortens the snake and lengthens it by one cell at most.
pub proof fn lemma_press_length(g: GameView, key: Key)
    requires
        g.snake.wf(),
    ensures
        g.snake.body.len() <= g.pressed(key).snake.body.len() <= g.snake.body.len() + 1,
        g.score <= g.pressed(key).score <= g.score + 1,
{
}

/// The passing of time never shortens the snake and lengthens it by one cell
/// at most, except where it restarts a finished game whose snake had grown.
pub proof fn lemma_tick_length(g: GameView, delta: int, spot: (int, int))
    requires
        g.wf(),
        !(g.game_over && g.waited(delta) > RESTART_TIME && g.snake.body.len() > 3),
    ensures
        g.snake.body.len() <= g.advanced(delta, spot).snake.body.len() <= g.snake.body.len() + 1,
{
}

/// A move onto the food scores exactly one point, removes the food and
/// leaves the snake one cell longer than before the move.
pub proof fn lemma_eating_grows(g: GameView, dir: Option<Direction>)
    requires
        g.snake.wf(),
        g.alive(dir),
        g.eats(dir),
    ensures
        g.stepped(dir).score == g.score + 1,
        !g.stepped(dir).food_exists,
        g.stepped(dir).snake.body.len() == g.snake.body.len() + 1,
        g.stepped(dir).snake.head() == g.food,
{
}

/// A move that survives without landing on food changes neither the score,
/// nor the food, nor the length of the snake.
pub proof fn lemma_plain_move_keeps_length(g: GameView, dir: Option<Direction>)
    requires
        g.snake.wf(),
        g.alive(dir),
        !g.eats(dir),
    ensures
        g.stepped(dir).score == g.score,
        g.stepped(dir).food_exists == g.food_exists,
        g.stepped(dir).food == g.food,
        g.stepped(dir).snake.body.len() == g.snake.body.len(),
        g.stepped(dir).snake.head() == g.snake.next_head(dir),
{
}

/// A move that does not survive, because the next cell is part of the snake
/// or on the border or beyond, ends the game, leaves the snake, the food and
/// the score as they were, and starts the waiting time at 0.
pub proof fn lemma_collision_ends_game(g: GameView, dir: Option<Direction>)
    requires
        !g.alive(dir),
    ensures
        g.stepped(dir).game_over,
        g.stepped(dir).waiting == 0,
        g.stepped(dir).snake == g.snake,
        g.stepped(dir).score == g.score,
        g.stepped(dir).food_exists == g.food_exists,
        g.stepped(dir).food == g.food,
{
}

/// The arrow that points against the heading changes nothing: neither the
/// heading, nor any cell of the snake, nor anything else of the game.
pub proof fn lemma_reverse_arrow_ignored(g: GameView, key: Key)
    requires
        key.arrow() == Some(g.snake.direction.reversed()),
    ensures
        g.pressed(key) == g,
{
}

/// A move against the heading would run into the snake's second cell; this
/// is what ignoring the reverse arrow saves the player from.
pub proof fn lemma_reversal_would_collide(g: GameView)
    requires
        g.wf(),
    ensures
        g.snake.next_head(Some(g.snake.direction.reversed())) == g.snake.body[1],
        !g.alive(Some(g.snake.direction.reversed())),
{
}

/// Continuing straight ahead never runs into the snake's second cell.
pub proof fn lemma_straight_misses_neck(g: GameView)
    requires
        g.wf(),
    ensures
        g.snake.next_head(None) != g.snake.body[1],
{
}

/// A finished game ignores every key.
pub proof fn lemma_finished_game_ignores_keys(g: GameView, key: Key)
    requires
        g.game_over,
    ensures
        g.pressed(key) == g,
{
}

/// A finished game only waits until more than [`RESTART_TIME`] has gone by
/// since it ended, and starts over on the tick on which that is the case.
pub proof fn lemma_finished_game_waits(g: GameView, delta: int, spot: (int, int))
    requires
        g.game_over,
    ensures
        g.waited(delta) <= RESTART_TIME ==> g.advanced(delta, spot) == (GameView {
            waiting: g.waited(delta),
            ..g
        }),
        g.waited(delta) > RESTART_TIME ==> g.advanced(delta, spot) == g.restarted(),
{
}

/// A game that a move has just ended is still over after any wait of at most
/// [`RESTART_TIME`], with the snake, the food and the score as the fatal move
/// found them.
pub proof fn lemma_no_restart_before_delay(
    g: GameView,
    dir: Option<Direction>,
    delta: int,
    spot: (int, int),
)
    requires
        !g.alive(dir),
        0 <= delta <= RESTART_TIME,
    ensures
        g.stepped(dir).advanced(delta, spot) == (GameView {
            game_over: true,
            waiting: delta,
            ..g
        }),
{
}

/// A restart puts the snake, the food, the score and the state back to what
/// a new game has, on the same board.
pub proof fn lemma_restart_restores_start(g: GameView)
    ensures
        g.restarted().snake == SnakeView::initial(2, 2),
        g.restarted().snake.body.len() == 3,
        g.restarted().score == 0,
        g.restarted().food_exists && g.restarted().food == (6int, 4int),
        !g.restarted().game_over,
        g.restarted().width == g.width && g.restarted().height == g.height,
{
}

/// A restart keeps the invariant.
pub proof fn lemma_restarted_wf(g: GameView)
    requires
        g.wf(),
    ensures
        g.restarted().wf(),
{
    lemma_initial_wf(g.width, g.height);
}

/// A key press keeps the invariant, provided that the score has room for
/// the point if the press scores one.
pub proof fn lemma_pressed_wf(g: GameView, key: Key)
    requires
        g.wf(),
        g.press_scores(key) ==> g.score < u32::MAX,
    ensures
        g.pressed(key).wf(),
{
    match g.steer(key) {
        Some(d) => {
            lemma_stepped_wf(g, Some(d));
        },
        None => {},
    }
}

/// The passing of time keeps the invariant, provided that food, where it has
/// to be placed, goes to a free cell, and that the score has room for the
/// point if one can be scored.
pub proof fn lemma_advanced_wf(g: GameView, delta: int, spot: (int, int))
    requires
        g.wf(),
        g.tick_may_score(delta) ==> g.score < u32::MAX,
        0 <= delta,
        !g.game_over && !g.food_exists ==> g.free(spot),
    ensures
        g.advanced(delta, spot).wf(),
{
    let w = g.waited(delta);
    if g.game_over {
        lemma_restarted_wf(g);
    } else {
        let fed = if g.food_exists {
            g
        } else {
            g.with_food(spot)
        };
        let fed = GameView { waiting: w, ..fed };
        if w > MOVING_PERIOD {
            lemma_stepped_wf(fed, None);
        }
    }
}

/// While the snake has not moved, the cell `(1, 1)` is not under it; once
/// the state is settled, the cell `(width, 1)` is not under it. So a board
/// with at least one column and one row always has a free cell for food.
pub proof fn lemma_free_cell_exists(g: GameView)
    requires
        g.wf(),
        g.width >= 1,
        g.height >= 1,
    ensures
        g.unmoved() ==> g.free((1, 1)),
        g.settled() ==> g.free((g.width, 1)),
        exists|p: (int, int)| g.free(p),
{
    if g.settled() {
        assert(g.free((g.width, 1)));
    }
    if g.unmoved() {
        assert(g.free((1, 1)));
    }
}

} // verus!
