use vstd::prelude::*;

use crate::game::{
    MAX_SCORE, base_speed, lemma_contains_drop_last, lemma_contains_front, level_for, GameModel, POWER_UP_MS,
};
use crate::grid::{in_bounds, Cell};

verus! {

proof fn lemma_front_no_duplicates(s: Seq<Cell>, h: Cell)
    requires
        s.no_duplicates(),
        !s.contains(h),
    ensures
        (seq![h] + s).no_duplicates(),
{
    let t = seq![h] + s;
    assert forall|i: int, j: int| 0 <= i < t.len() && 0 <= j < t.len() && i != j implies t[i]
        != t[j] by {
        if i == 0 && j > 0 {
            assert(s[j - 1] == t[j]);
        } else if j == 0 && i > 0 {
            assert(s[i - 1] == t[i]);
        }
    }
}

proof fn lemma_drop_last_no_duplicates(s: Seq<Cell>)
    requires
        s.len() >= 1,
        s.no_duplicates(),
    ensures
        s.drop_last().no_duplicates(),
{
    assert forall|i: int, j: int|
        0 <= i < s.drop_last().len() && 0 <= j < s.drop_last().len() && i != j implies s.drop_last()[i]
        != s.drop_last()[j] by {
        assert(s[i] == s.drop_last()[i] && s[j] == s.drop_last()[j]);
    }
}

/// While the snake is not invincible, a tick keeps its cells pairwise distinct.
pub proof fn cells_stay_distinct(before: GameModel, after: GameModel, elapsed: nat)
    requires
        before.wf(),
        before.snake.no_duplicates(),
        !before.invincibility,
        GameModel::update_outcome(before, after, elapsed),
    ensures
        after.snake.no_duplicates(),
{
    let t = before.after_timers(elapsed);
    let nh = before.target(elapsed);
    if !before.game_over && !before.paused && nh != t.snake[0] && !before.collides(elapsed) {
        assert(!t.snake.contains(nh));
        if nh == t.food {
            lemma_front_no_duplicates(t.snake, nh);
        } else {
            lemma_drop_last_no_duplicates(t.snake);
            lemma_contains_drop_last(t.snake, nh);
            lemma_front_no_duplicates(t.snake.drop_last(), nh);
        }
    }
}

/// A tick that eats makes the snake one cell longer; any other tick keeps its length.
pub proof fn growth_law(before: GameModel, after: GameModel, elapsed: nat)
    requires
        before.wf(),
        GameModel::update_outcome(before, after, elapsed),
    ensures
        after.snake.len() == before.snake.len() + if before.eats(elapsed) {
            1int
        } else {
            0int
        },
{
}

/// The level is one more than the number of whole hundreds in the score.
pub proof fn level_law(g: GameModel)
    requires
        g.wf(),
    ensures
        g.level == g.score / 100 + 1,
        g.level == level_for(g.score),
{
}

/// A tick that runs the power-up timer out leaves the speed at that of the level,
/// the snake not invincible, and no power-up on the board but one just placed with a
/// full timer.
pub proof fn expiry_law(before: GameModel, after: GameModel, elapsed: nat)
    requires
        before.wf(),
        !before.game_over,
        !before.paused,
        0 < before.power_up_timer <= elapsed,
        GameModel::update_outcome(before, after, elapsed),
    ensures
        after.speed == base_speed(after.level),
        !after.invincibility,
        after.power_up is None || after.power_up_timer == POWER_UP_MS,
{
}

/// A tick up to placing new food keeps everything but, after a meal, where the food
/// lies.
proof fn lemma_advanced_core(before: GameModel, elapsed: nat)
    requires
        before.wf(),
        before.score <= MAX_SCORE,
    ensures
        before.advanced(elapsed).core_wf(),
        !before.eats(elapsed) ==> before.advanced(elapsed).wf(),
        before.eats(elapsed) ==> before.advanced(elapsed).speed == base_speed(
            before.advanced(elapsed).level,
        ),
{
    let t = before.after_timers(elapsed);
    let nh = before.target(elapsed);
    let a = before.advanced(elapsed);
    if !before.game_over && !before.paused {
        if nh != t.snake[0] && !before.collides(elapsed) {
            let s = if nh == t.food {
                seq![nh] + t.snake
            } else {
                seq![nh] + t.snake.drop_last()
            };
            assert(a.snake == s);
            assert forall|c: Cell| #[trigger] s.contains(c) implies c == nh || t.snake.contains(c) by {
                if nh == t.food {
                    lemma_contains_front(t.snake, nh, c);
                } else {
                    lemma_contains_front(t.snake.drop_last(), nh, c);
                    lemma_contains_drop_last(t.snake, c);
                }
            }
            assert forall|i: int| 0 <= i < s.len() implies in_bounds(#[trigger] s[i]) by {
                if i > 0 {
                    assert(s[i] == t.snake[i - 1]);
                }
            }
        }
    }
}

/// Every outcome of a tick from a well-formed game is well formed again.
pub proof fn update_keeps_wf(before: GameModel, after: GameModel, elapsed: nat)
    requires
        before.wf(),
        before.score <= MAX_SCORE,
        GameModel::update_outcome(before, after, elapsed),
    ensures
        after.wf(),
{
    lemma_advanced_core(before, elapsed);
    let a = before.advanced(elapsed);
    if before.eats(elapsed) && after.game_over {
        assert forall|c: Cell| in_bounds(c) implies #[trigger] after.snake.contains(c)
            || after.on_power_up(c) by {
            assert(a.snake.contains(c) || a.on_power_up(c));
        }
    }
}

/// Over any run of ticks from a well-formed game, every state is well formed, so the
/// food never lies on the snake unless the game ended with no free cell left for it.
pub proof fn food_off_snake_over_run(run: Seq<GameModel>, elapsed: Seq<nat>)
    requires
        run.len() == elapsed.len() + 1,
        run[0].wf(),
        forall|i: int|
            0 <= i < elapsed.len() ==> (#[trigger] run[i]).score <= MAX_SCORE
                && GameModel::update_outcome(run[i], run[i + 1], elapsed[i]),
    ensures
        forall|i: int|
            0 <= i < run.len() ==> (#[trigger] run[i]).wf() && (!run[i].snake.contains(
                run[i].food,
            ) || (run[i].game_over && run[i].board_full())),
    decreases run.len(),
{
    if run.len() > 1 {
        let n = elapsed.len() - 1;
        let shorter = run.drop_last();
        food_off_snake_over_run(shorter, elapsed.drop_last());
        assert(shorter[n] == run[n]);
        assert(run[n].score <= MAX_SCORE && GameModel::update_outcome(run[n], run[n + 1], elapsed[n]));
        update_keeps_wf(run[n], run[n + 1], elapsed[n]);
        assert forall|i: int| 0 <= i < run.len() implies (#[trigger] run[i]).wf() by {
            if i < run.len() - 1 {
                assert(shorter[i] == run[i]);
            }
        }
    }
}

/// Over any run of ticks from a well-formed game whose cells are distinct, the cells
/// stay distinct as long as the snake is never invincible.
pub proof fn cells_distinct_over_run(run: Seq<GameModel>, elapsed: Seq<nat>)
    requires
        run.len() == elapsed.len() + 1,
        run[0].wf(),
        run[0].snake.no_duplicates(),
        forall|i: int|
            0 <= i < elapsed.len() ==> (#[trigger] run[i]).score <= MAX_SCORE
                && !run[i].invincibility && GameModel::update_outcome(run[i], run[i + 1], elapsed[i]),
    ensures
        forall|i: int| 0 <= i < run.len() ==> (#[trigger] run[i]).snake.no_duplicates(),
    decreases run.len(),
{
    if run.len() > 1 {
        let n = elapsed.len() - 1;
        let shorter = run.drop_last();
        cells_distinct_over_run(shorter, elapsed.drop_last());
        food_off_snake_over_run(shorter, elapsed.drop_last());
        assert(shorter[n] == run[n]);
        assert(run[n].score <= MAX_SCORE && !run[n].invincibility && GameModel::update_outcome(
            run[n],
            run[n + 1],
            elapsed[n],
        ));
        cells_stay_distinct(run[n], run[n + 1], elapsed[n]);
        assert forall|i: int| 0 <= i < run.len() implies (#[trigger] run[i]).snake.no_duplicates() by {
            if i < run.len() - 1 {
                assert(shorter[i] == run[i]);
            }
        }
    }
}

} // verus!
