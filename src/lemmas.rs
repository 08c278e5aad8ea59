use vstd::prelude::*;

use crate::game::{
    has_five, in_bounds, is_direction, line_of_five, o_cell, resolved, run, five_from,
    ObservedBoard, Game,
};
use crate::player::{black_percent, flip_strength, owner, strength, Color, PlayerKind};

verus! {

/// The turn passes to the other side on every placement and every observation.
pub proof fn lemma_turn_alternates(
    pre: Game,
    x: int,
    y: int,
    c: Color,
    placed: Game,
    seen: ObservedBoard,
    observed: Game,
)
    ensures
        Game::placement(pre, x, y, c, placed) ==> placed.spec_turn() != pre.spec_turn(),
        Game::observation(pre, seen, observed) ==> observed.spec_turn() != pre.spec_turn(),
{
}

/// Two placements by one side carry opposite strengths, whatever happened
/// between them that left that side's next strength alone (the other side's
/// placements and observations do).
pub proof fn lemma_strength_alternates(
    g0: Game,
    x0: int,
    y0: int,
    c0: Color,
    g1: Game,
    g2: Game,
    x2: int,
    y2: int,
    c2: Color,
    g3: Game,
)
    requires
        Game::placement(g0, x0, y0, c0, g1),
        Game::placement(g2, x2, y2, c2, g3),
        g2.spec_turn() == g0.spec_turn(),
        g2.spec_pending(g0.spec_turn()) == g1.spec_pending(g0.spec_turn()),
    ensures
        owner(c2) == owner(c0),
        strength(c2) == flip_strength(strength(c0)),
{
}

/// From a new game, five placements in a row give Black 70, White 10,
/// Black 90, White 30, Black 70.
pub proof fn lemma_opening_percents(
    g0: Game,
    at0: (int, int),
    c0: Color,
    g1: Game,
    at1: (int, int),
    c1: Color,
    g2: Game,
    at2: (int, int),
    c2: Color,
    g3: Game,
    at3: (int, int),
    c3: Color,
    g4: Game,
    at4: (int, int),
    c4: Color,
    g5: Game,
)
    requires
        g0.is_initial(),
        Game::placement(g0, at0.0, at0.1, c0, g1),
        Game::placement(g1, at1.0, at1.1, c1, g2),
        Game::placement(g2, at2.0, at2.1, c2, g3),
        Game::placement(g3, at3.0, at3.1, c3, g4),
        Game::placement(g4, at4.0, at4.1, c4, g5),
    ensures
        black_percent(c0) == 70,
        black_percent(c1) == 10,
        black_percent(c2) == 90,
        black_percent(c3) == 30,
        black_percent(c4) == 70,
{
}

/// Every stone can be seen as either side: the lowest draw shows it Black and
/// the highest White, so two observations of one board may differ.
pub proof fn lemma_draws_decide(c: Color)
    ensures
        resolved(c, 0) == PlayerKind::Black,
        resolved(c, 99) == PlayerKind::White,
{
}

/// A side has five in a row exactly when five of its stones stand in an
/// unbroken straight line across, down, or along either diagonal; four are
/// not enough.
pub proof fn lemma_five_in_line(b: ObservedBoard, s: PlayerKind)
    ensures
        has_five(b, s) <==> exists|x: int, y: int, dx: int, dy: int|
            is_direction(dx, dy) && #[trigger] line_of_five(b, x, y, dx, dy, s),
{
    reveal_with_fuel(run, 5);
    if has_five(b, s) {
        let (x, y) = choose|x: int, y: int| #[trigger] five_from(b, x, y, s);
        let (dx, dy) = if run(b, x, y, 1, 0, 5) {
            (1int, 0int)
        } else if run(b, x, y, 0, 1, 5) {
            (0int, 1int)
        } else if run(b, x, y, 1, 1, 5) {
            (1int, 1int)
        } else {
            (1int, -1int)
        };
        assert(run(b, x, y, dx, dy, 5));
        assert forall|k: int| 0 <= k < 5 implies in_bounds(x + k * dx, y + k * dy) && #[trigger] o_cell(
            b,
            x + k * dx,
            y + k * dy,
        ) == Some(s) by {
            assert(k == 0 || k == 1 || k == 2 || k == 3 || k == 4);
        }
        assert(line_of_five(b, x, y, dx, dy, s));
    }
    if exists|x: int, y: int, dx: int, dy: int|
        is_direction(dx, dy) && #[trigger] line_of_five(b, x, y, dx, dy, s) {
        let (x, y, dx, dy) = choose|x: int, y: int, dx: int, dy: int|
            is_direction(dx, dy) && #[trigger] line_of_five(b, x, y, dx, dy, s);
        assert(o_cell(b, x + 0 * dx, y + 0 * dy) == Some(s));
        assert(o_cell(b, x + 1 * dx, y + 1 * dy) == Some(s));
        assert(o_cell(b, x + 2 * dx, y + 2 * dy) == Some(s));
        assert(o_cell(b, x + 3 * dx, y + 3 * dy) == Some(s));
        assert(o_cell(b, x + 4 * dx, y + 4 * dy) == Some(s));
        assert(run(b, x, y, dx, dy, 5));
        assert(five_from(b, x, y, s));
    }
}

/// Once an observation shows five in a row for some side, the game has a
/// winner; `place_stone_prohibitly` refuses every placement in a game that has one.
pub proof fn lemma_win_ends_game(pre: Game, seen: ObservedBoard, post: Game, k: PlayerKind)
    requires
        Game::observation(pre, seen, post),
        has_five(seen, k),
    ensures
        post.spec_winner() is Some,
{
    let w = Set::new(|j: PlayerKind| has_five(seen, j));
    assert(w.contains(k));
}

} // verus!
