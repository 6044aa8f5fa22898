use vstd::prelude::*;

use crate::direction::Direction;
use crate::game::SnakeGame;
use crate::game::free_cell;
use crate::game::in_grid;
use crate::game::next_head;
use crate::game::request_post;
use crate::game::same_view;
use crate::game::step_x;
use crate::game::step_y;
use crate::game::tick_post;

verus! {

/// Law: on a live well-formed state whose head stands in the last
/// column and whose committed move is to the right, a tick ends the
/// game and leaves body, food and score unchanged.  (By symmetry of
/// [`tick_post`], the same holds at each of the other three edges.)
pub proof fn lemma_boundary_ends_game(pre: SnakeGame, post: SnakeGame)
    requires
        pre.wf(),
        !pre.over(),
        pre.pending() == Direction::Right,
        pre.head().x + 1 == pre.width(),
        tick_post(pre, post),
    ensures
        post.over(),
        post.score() == pre.score(),
        post.body() == pre.body(),
        post.food() == pre.food(),
{
    assert(step_x(pre.head(), pre.pending()) == pre.width());
}

/// Law: on a live well-formed state whose head is about to move onto a
/// cell of its own body, a tick ends the game and leaves body, food
/// and score unchanged.
pub proof fn lemma_self_collision_ends_game(pre: SnakeGame, post: SnakeGame)
    requires
        pre.wf(),
        !pre.over(),
        in_grid(
            pre.width(),
            pre.height(),
            step_x(pre.head(), pre.pending()),
            step_y(pre.head(), pre.pending()),
        ),
        pre.body().contains(next_head(pre)),
        tick_post(pre, post),
    ensures
        post.over(),
        post.score() == pre.score(),
        post.body() == pre.body(),
        post.food() == pre.food(),
{
}

/// Law: on a live well-formed state whose head is about to move onto
/// the food cell, a tick raises the score by exactly one, grows the
/// body by exactly one cell, and (while the game goes on) places the
/// new food off the new body.
pub proof fn lemma_growth_on_food(pre: SnakeGame, post: SnakeGame)
    requires
        pre.wf(),
        !pre.over(),
        in_grid(
            pre.width(),
            pre.height(),
            step_x(pre.head(), pre.pending()),
            step_y(pre.head(), pre.pending()),
        ),
        next_head(pre) == pre.food(),
        tick_post(pre, post),
    ensures
        post.score() == pre.score() + 1,
        post.body().len() == pre.body().len() + 1,
        !post.over() ==> !post.body().contains(post.food()),
{
}

/// Law: on a live well-formed state whose head is about to move onto a
/// free cell that is not the food, a tick keeps the body length and
/// the score, and the previous tail cell is no longer anywhere on the
/// body.
pub proof fn lemma_plain_move_keeps_length(pre: SnakeGame, post: SnakeGame)
    requires
        pre.wf(),
        !pre.over(),
        in_grid(
            pre.width(),
            pre.height(),
            step_x(pre.head(), pre.pending()),
            step_y(pre.head(), pre.pending()),
        ),
        !pre.body().contains(next_head(pre)),
        next_head(pre) != pre.food(),
        tick_post(pre, post),
    ensures
        !post.over(),
        post.body().len() == pre.body().len(),
        post.score() == pre.score(),
        !post.body().contains(pre.body().last()),
{
    let b = pre.body();
    let tail = b.last();
    assert(b[b.len() - 1] == tail);
    assert(b.contains(tail));
    assert(!post.body().contains(tail)) by {
        if post.body().contains(tail) {
            let k = choose|k: int| 0 <= k < post.body().len() && post.body()[k] == tail;
            assert(post.body()[0] == next_head(pre));
            if k > 0 {
                assert(post.body()[k] == b.drop_last()[k - 1]);
                assert(b.drop_last()[k - 1] == b[k - 1]);
                assert(b[k - 1] != b[b.len() - 1]);
            }
        }
    }
}

/// Law: a request to reverse straight into the committed heading is
/// dropped, so the following tick still moves the head one cell in
/// that heading.
pub proof fn lemma_reversal_rejected(pre: SnakeGame, mid: SnakeGame, post: SnakeGame)
    requires
        pre.wf(),
        !pre.over(),
        pre.pending() == pre.heading(),
        request_post(pre, pre.heading().opposite(), mid),
        tick_post(mid, post),
    ensures
        post.heading() == pre.heading(),
        !post.over() ==> post.head() == next_head(pre),
{
    assert(next_head(mid) == next_head(pre));
    if !post.over() {
        assert(post.body()[0] == next_head(mid));
    }
}

/// Law: of two requests issued between ticks, only the second takes
/// effect -- the next tick commits to it, whatever the first asked.
pub proof fn lemma_latest_request_wins(
    pre: SnakeGame,
    mid1: SnakeGame,
    mid2: SnakeGame,
    post: SnakeGame,
    first: Direction,
    second: Direction,
)
    requires
        pre.wf(),
        !pre.over(),
        request_post(pre, first, mid1),
        request_post(mid1, second, mid2),
        second != pre.heading().opposite(),
        tick_post(mid2, post),
    ensures
        post.heading() == second,
        post.pending() == second,
{
}

/// Law: a terminal state absorbs ticks -- nothing a host can observe
/// changes.
pub proof fn lemma_terminal_absorbs_tick(pre: SnakeGame, post: SnakeGame)
    requires
        pre.over(),
        tick_post(pre, post),
    ensures
        same_view(pre, post),
{
}

/// Law: a terminal state absorbs direction requests -- nothing a host
/// can observe changes.
pub proof fn lemma_terminal_absorbs_request(pre: SnakeGame, dir: Direction, post: SnakeGame)
    requires
        pre.over(),
        request_post(pre, dir, post),
    ensures
        same_view(pre, post),
{
}

/// Law: while the game runs, the food cell is never an element of the
/// body.  (Well-formedness is established by `new` and preserved by
/// every operation, so this holds of every reachable state.)
pub proof fn lemma_food_never_on_body(s: SnakeGame)
    requires
        s.wf(),
        !s.over(),
    ensures
        !s.body().contains(s.food()),
        free_cell(s.width(), s.height(), s.body(), s.food()),
{
}

} // verus!
