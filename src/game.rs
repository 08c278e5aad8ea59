use vstd::prelude::*;

use rand::Rng;

use crate::player::{
    black_percent, flip_strength, opponent, stone_of, Color, PColor, Player, PlayerKind,
};

verus! {

/// Width and height of the board.
pub const BOARD_SIZE: usize = 18;

/// Stones as placed, indexed `[y][x]`.
pub type ProbabilityBoard = [[Option<Color>; BOARD_SIZE]; BOARD_SIZE];

/// Sides as last observed, indexed `[y][x]`.
pub type ObservedBoard = [[Option<PlayerKind>; BOARD_SIZE]; BOARD_SIZE];

pub open spec fn in_bounds(x: int, y: int) -> bool {
    0 <= x < BOARD_SIZE && 0 <= y < BOARD_SIZE
}

/// The stone at `(x, y)`.
pub open spec fn p_cell(b: ProbabilityBoard, x: int, y: int) -> Option<Color> {
    b@[y]@[x]
}

/// The observed side at `(x, y)`.
pub open spec fn o_cell(b: ObservedBoard, x: int, y: int) -> Option<PlayerKind> {
    b@[y]@[x]
}

pub open spec fn p_board_empty(b: ProbabilityBoard) -> bool {
    forall|x: int, y: int| in_bounds(x, y) ==> p_cell(b, x, y) is None
}

pub open spec fn o_board_empty(b: ObservedBoard) -> bool {
    forall|x: int, y: int| in_bounds(x, y) ==> o_cell(b, x, y) is None
}

/// The side a stone is seen as, given a draw out of 100.
pub open spec fn resolved(c: Color, draw: u8) -> PlayerKind {
    if draw < black_percent(c) {
        PlayerKind::Black
    } else {
        PlayerKind::White
    }
}

/// What a cell is seen as, given a draw out of 100.
pub open spec fn collapse(c: Option<Color>, draw: u8) -> Option<PlayerKind> {
    match c {
        Some(s) => Some(resolved(s, draw)),
        None => None,
    }
}


/// Whether `(dx, dy)` is one of the four directions a line is read in.
pub open spec fn is_direction(dx: int, dy: int) -> bool {
    (dx == 1 && dy == 0) || (dx == 0 && dy == 1) || (dx == 1 && dy == 1) || (dx == 1 && dy == -1)
}

/// Whether the `n` cells from `(x, y)` on, stepping by `(dx, dy)`, lie on the board
/// and all hold what `(x, y)` holds.
pub open spec fn run(b: ObservedBoard, x: int, y: int, dx: int, dy: int, n: nat) -> bool
    decreases n,
{
    if n <= 1 {
        true
    } else {
        in_bounds(x + dx, y + dy) && o_cell(b, x + dx, y + dy) == o_cell(b, x, y) && run(
            b,
            x + dx,
            y + dy,
            dx,
            dy,
            (n - 1) as nat,
        )
    }
}

/// Whether a line of five stones of side `s` starts at `(x, y)`.
pub open spec fn five_from(b: ObservedBoard, x: int, y: int, s: PlayerKind) -> bool {
    in_bounds(x, y) && o_cell(b, x, y) == Some(s) && (run(b, x, y, 1, 0, 5) || run(b, x, y, 0, 1, 5)
        || run(b, x, y, 1, 1, 5) || run(b, x, y, 1, -1, 5))
}

/// Whether side `s` has five in a row somewhere on the board.
pub open spec fn has_five(b: ObservedBoard, s: PlayerKind) -> bool {
    exists|x: int, y: int| #[trigger] five_from(b, x, y, s)
}

/// The five cells from `(x, y)` in direction `(dx, dy)` are all on the board and all `s`.
pub open spec fn line_of_five(
    b: ObservedBoard,
    x: int,
    y: int,
    dx: int,
    dy: int,
    s: PlayerKind,
) -> bool {
    forall|k: int|
        0 <= k < 5 ==> in_bounds(x + k * dx, y + k * dy) && #[trigger] o_cell(
            b,
            x + k * dx,
            y + k * dy,
        ) == Some(s)
}

/// The sides that have five in a row.
pub struct WinnerSet {
    pub black: bool,
    pub white: bool,
}

impl View for WinnerSet {
    type V = Set<PlayerKind>;

    open spec fn view(&self) -> Set<PlayerKind> {
        Set::new(
            |k: PlayerKind|
                (k == PlayerKind::Black && self.black) || (k == PlayerKind::White && self.white),
        )
    }
}

impl WinnerSet {
    pub fn contains(&self, k: PlayerKind) -> (r: bool)
        ensures
            r == self@.contains(k),
    {
        match k {
            PlayerKind::Black => self.black,
            PlayerKind::White => self.white,
        }
    }

    /// How many sides are in the set.
    pub fn len(&self) -> (r: usize)
        ensures
            r == (if self.black { 1int } else { 0int }) + (if self.white { 1int } else { 0int }),
            r == 0 <==> self@ =~= Set::empty(),
    {
        let mut n: usize = 0;
        if self.black {
            n = n + 1;
        }
        if self.white {
            n = n + 1;
        }
        proof {
            if n != 0 {
                if self.black {
                    assert(self@.contains(PlayerKind::Black));
                } else {
                    assert(self@.contains(PlayerKind::White));
                }
            }
        }
        n
    }
}

/// Whether, counting `count` equal cells up to `(x, y)`, the line reaches five
/// going on in `direction`.
pub fn check_win_dfs(
    board: &ObservedBoard,
    x: usize,
    y: usize,
    direction: (isize, isize),
    count: usize,
) -> (r: bool)
    requires
        in_bounds(x as int, y as int),
        -1 <= direction.0 <= 1,
        -1 <= direction.1 <= 1,
    ensures
        r == run(
            *board,
            x as int,
            y as int,
            direction.0 as int,
            direction.1 as int,
            if count >= 5 { 1nat } else { (6 - count) as nat },
        ),
    decreases 5 - count,
{
    if count >= 5 {
        return true;
    }
    let new_x = x as isize + direction.0;
    let new_y = y as isize + direction.1;

    if new_x < 0 || new_x >= BOARD_SIZE as isize || new_y < 0 || new_y >= BOARD_SIZE as isize {
        return false;
    }
    let new_x = new_x as usize;
    let new_y = new_y as usize;

    if board[new_y][new_x] == board[y][x] {
        check_win_dfs(board, new_x, new_y, direction, count + 1)
    } else {
        false
    }
}


/// Whether a line of five of side `s` starts at a cell before `(x, y)` in row order.
pub open spec fn found_before(b: ObservedBoard, s: PlayerKind, x: int, y: int) -> bool {
    exists|i: int, j: int| (j < y || (j == y && i < x)) && #[trigger] five_from(b, i, j, s)
}

/// Whether a line of five in any direction starts at `(x, y)`.
fn starts_line(board: &ObservedBoard, x: usize, y: usize) -> (r: bool)
    requires
        in_bounds(x as int, y as int),
    ensures
        r == (run(*board, x as int, y as int, 1, 0, 5) || run(*board, x as int, y as int, 0, 1, 5)
            || run(*board, x as int, y as int, 1, 1, 5) || run(*board, x as int, y as int, 1, -1, 5)),
{
    check_win_dfs(board, x, y, (1, 0), 1) || check_win_dfs(board, x, y, (0, 1), 1)
        || check_win_dfs(board, x, y, (1, 1), 1) || check_win_dfs(board, x, y, (1, -1), 1)
}

/// The sides that have five in a row on `board`.
pub fn winners_of(board: &ObservedBoard) -> (r: WinnerSet)
    ensures
        r.black == has_five(*board, PlayerKind::Black),
        r.white == has_five(*board, PlayerKind::White),
        forall|k: PlayerKind| r@.contains(k) == has_five(*board, k),
{
    let mut winners = WinnerSet { black: false, white: false };
    let mut y: usize = 0;
    while y < BOARD_SIZE
        invariant
            y <= BOARD_SIZE,
            winners.black == found_before(*board, PlayerKind::Black, 0, y as int),
            winners.white == found_before(*board, PlayerKind::White, 0, y as int),
        decreases BOARD_SIZE - y,
    {
        let mut x: usize = 0;
        while x < BOARD_SIZE
            invariant
                x <= BOARD_SIZE,
                y < BOARD_SIZE,
                winners.black == found_before(*board, PlayerKind::Black, x as int, y as int),
                winners.white == found_before(*board, PlayerKind::White, x as int, y as int),
            decreases BOARD_SIZE - x,
        {
            let ghost before = winners;
            let line = match board[y][x] {
                Some(_) => starts_line(board, x, y),
                None => false,
            };
            if line {
                match board[y][x] {
                    Some(PlayerKind::Black) => {
                        winners.black = true;
                    },
                    Some(PlayerKind::White) => {
                        winners.white = true;
                    },
                    None => {},
                }
            }
            proof {
                let xi = x as int;
                let yi = y as int;
                assert forall|s: PlayerKind|
                    found_before(*board, s, xi + 1, yi) == (found_before(*board, s, xi, yi)
                        || five_from(*board, xi, yi, s)) by {
                    if found_before(*board, s, xi + 1, yi) {
                        let (i, j) = choose|i: int, j: int|
                            (j < yi || (j == yi && i < xi + 1)) && #[trigger] five_from(
                                *board,
                                i,
                                j,
                                s,
                            );
                        if !(i == xi && j == yi) {
                            assert(found_before(*board, s, xi, yi));
                        }
                    }
                    if found_before(*board, s, xi, yi) {
                        let (i, j) = choose|i: int, j: int|
                            (j < yi || (j == yi && i < xi)) && #[trigger] five_from(*board, i, j, s);
                        assert(found_before(*board, s, xi + 1, yi));
                    }
                    if five_from(*board, xi, yi, s) {
                        assert(found_before(*board, s, xi + 1, yi));
                    }
                }
                assert(five_from(*board, xi, yi, PlayerKind::Black) == (line && board@[yi]@[xi]
                    == Some(PlayerKind::Black)));
                assert(five_from(*board, xi, yi, PlayerKind::White) == (line && board@[yi]@[xi]
                    == Some(PlayerKind::White)));
            }
            x = x + 1;
        }
        proof {
            let yi = y as int;
            assert forall|s: PlayerKind|
                found_before(*board, s, 0, yi + 1) == found_before(
                    *board,
                    s,
                    BOARD_SIZE as int,
                    yi,
                ) by {
                if found_before(*board, s, 0, yi + 1) {
                    let (i, j) = choose|i: int, j: int|
                        (j < yi + 1 || (j == yi + 1 && i < 0)) && #[trigger] five_from(
                            *board,
                            i,
                            j,
                            s,
                        );
                    assert(found_before(*board, s, BOARD_SIZE as int, yi));
                }
                if found_before(*board, s, BOARD_SIZE as int, yi) {
                    let (i, j) = choose|i: int, j: int|
                        (j < yi || (j == yi && i < BOARD_SIZE as int)) && #[trigger] five_from(
                            *board,
                            i,
                            j,
                            s,
                        );
                    assert(found_before(*board, s, 0, yi + 1));
                }
            }
        }
        y = y + 1;
    }
    proof {
        assert forall|s: PlayerKind| found_before(*board, s, 0, BOARD_SIZE as int) == has_five(
            *board,
            s,
        ) by {
            if has_five(*board, s) {
                let (i, j) = choose|i: int, j: int| #[trigger] five_from(*board, i, j, s);
                assert(found_before(*board, s, 0, BOARD_SIZE as int));
            }
        }
    }
    winners
}


/// Who a finished game goes to once an observation shows `winners`, `turn_after`
/// being the side to move after it. A game already decided stays decided; two
/// winners at once go to the side that observed.
pub open spec fn settle(
    prev: Option<PlayerKind>,
    winners: Set<PlayerKind>,
    turn_after: PlayerKind,
) -> Option<PlayerKind> {
    if prev is Some {
        prev
    } else if winners.contains(PlayerKind::Black) && winners.contains(PlayerKind::White) {
        Some(opponent(turn_after))
    } else if winners.contains(PlayerKind::Black) {
        Some(PlayerKind::Black)
    } else if winners.contains(PlayerKind::White) {
        Some(PlayerKind::White)
    } else {
        None
    }
}

/// The side that wins by an observation showing `winners`, with `turn_after` to
/// move after it, if any.
pub fn decide_winner(winners: &WinnerSet, turn_after: PlayerKind) -> (r: Option<PlayerKind>)
    ensures
        r == settle(None, winners@, turn_after),
{
    if winners.black && winners.white {
        Some(
            match turn_after {
                PlayerKind::Black => PlayerKind::White,
                PlayerKind::White => PlayerKind::Black,
            },
        )
    } else if winners.black {
        Some(PlayerKind::Black)
    } else if winners.white {
        Some(PlayerKind::White)
    } else {
        None
    }
}

/// The side a stone is seen as, given a draw out of 100.
pub fn resolve(color: Color, draw: u8) -> (r: PlayerKind)
    ensures
        r == resolved(color, draw),
{
    if draw < color.percent() {
        PlayerKind::Black
    } else {
        PlayerKind::White
    }
}

/// Relies on rand's `thread_rng` and `Rng::gen_range`, which returns a value
/// inside the range it is given.
#[verifier::external_body]
fn draw_percent() -> (r: u8)
    ensures
        r < 100,
{
    rand::thread_rng().gen_range(0..100u8)
}

/// Why a placement was refused.
#[derive(Clone, Copy, PartialEq, Eq, Structural, Debug)]
pub enum GameError {
    GameIsAlreadyOver,
    /// Off the board (`None`) or taken by the stone carried.
    InvalidPosition(Option<Color>),
}

impl GameError {
    /// A message for the player.
    pub fn to_string(&self) -> (r: String)
        ensures
            *self == GameError::GameIsAlreadyOver ==> r@ == "Game is already over"@,
            *self == GameError::InvalidPosition(None) ==> r@ == "Invalid position: None"@,
            (*self matches GameError::InvalidPosition(Some(Color::Black(_)))) ==> r@
                == "Invalid position: black"@,
            (*self matches GameError::InvalidPosition(Some(Color::White(_)))) ==> r@
                == "Invalid position: white"@,
    {
        match self {
            GameError::GameIsAlreadyOver => "Game is already over".to_string(),
            GameError::InvalidPosition(None) => "Invalid position: None".to_string(),
            GameError::InvalidPosition(Some(Color::Black(_))) => "Invalid position: black".to_string(),
            GameError::InvalidPosition(Some(Color::White(_))) => "Invalid position: white".to_string(),
        }
    }
}

/// A game in progress: the stones placed, the last observation, whose turn it
/// is, what each side places next, and the winner once there is one.
pub struct Game {
    p_board: ProbabilityBoard,
    observed_board: ObservedBoard,
    turn: PlayerKind,
    black: Player,
    white: Player,
    winner: Option<PlayerKind>,
}

impl Game {
    pub closed spec fn spec_board(&self) -> ProbabilityBoard {
        self.p_board
    }

    pub closed spec fn spec_observed(&self) -> ObservedBoard {
        self.observed_board
    }

    pub closed spec fn spec_turn(&self) -> PlayerKind {
        self.turn
    }

    pub closed spec fn spec_winner(&self) -> Option<PlayerKind> {
        self.winner
    }

    /// The strength of the next stone side `k` places.
    pub closed spec fn spec_pending(&self, k: PlayerKind) -> PColor {
        match k {
            PlayerKind::Black => self.black.spec_next(),
            PlayerKind::White => self.white.spec_next(),
        }
    }

    /// Each player plays the side it is kept for.
    pub closed spec fn wf(&self) -> bool {
        self.black.spec_kind() == PlayerKind::Black && self.white.spec_kind() == PlayerKind::White
    }

    /// The state of a game before its first move.
    pub open spec fn is_initial(&self) -> bool {
        &&& self.wf()
        &&& p_board_empty(self.spec_board())
        &&& o_board_empty(self.spec_observed())
        &&& self.spec_turn() == PlayerKind::Black
        &&& self.spec_pending(PlayerKind::Black) == PColor::Weak
        &&& self.spec_pending(PlayerKind::White) == PColor::Strong
        &&& self.spec_winner() is None
    }

    /// `post` is `pre` after the side to move placed `c` at `(x, y)`.
    pub open spec fn placement(pre: Game, x: int, y: int, c: Color, post: Game) -> bool {
        let k = pre.spec_turn();
        &&& c == stone_of(k, pre.spec_pending(k))
        &&& forall|i: int, j: int|
            in_bounds(i, j) ==> p_cell(post.spec_board(), i, j) == if i == x && j == y {
                Some(c)
            } else {
                p_cell(pre.spec_board(), i, j)
            }
        &&& post.spec_turn() == opponent(k)
        &&& post.spec_pending(k) == flip_strength(pre.spec_pending(k))
        &&& post.spec_pending(opponent(k)) == pre.spec_pending(opponent(k))
        &&& post.spec_observed() == pre.spec_observed()
        &&& post.spec_winner() == pre.spec_winner()
        &&& post.wf() == pre.wf()
    }

    /// `post` is `pre` after an observation that saw `seen`: the stones and what
    /// each side places next are kept, the turn passes, and the winner is settled.
    pub open spec fn observation(pre: Game, seen: ObservedBoard, post: Game) -> bool {
        &&& post.spec_board() == pre.spec_board()
        &&& post.spec_pending(PlayerKind::Black) == pre.spec_pending(PlayerKind::Black)
        &&& post.spec_pending(PlayerKind::White) == pre.spec_pending(PlayerKind::White)
        &&& post.spec_turn() == opponent(pre.spec_turn())
        &&& post.spec_observed() == seen
        &&& post.spec_winner() == settle(
            pre.spec_winner(),
            Set::new(|k: PlayerKind| has_five(seen, k)),
            post.spec_turn(),
        )
        &&& post.wf() == pre.wf()
    }

    pub fn new() -> (r: Game)
        ensures
            r.is_initial(),
    {
        Game {
            p_board: [[None; BOARD_SIZE]; BOARD_SIZE],
            observed_board: [[None; BOARD_SIZE]; BOARD_SIZE],
            turn: PlayerKind::Black,
            black: Player::new(PlayerKind::Black, PColor::Weak),
            white: Player::new(PlayerKind::White, PColor::Strong),
            winner: None,
        }
    }

    /// Clears the game back to its state before the first move.
    pub fn reset(&mut self)
        ensures
            final(self).is_initial(),
    {
        self.p_board = [[None; BOARD_SIZE]; BOARD_SIZE];
        self.observed_board = [[None; BOARD_SIZE]; BOARD_SIZE];
        self.turn = PlayerKind::Black;
        self.black = Player::new(PlayerKind::Black, PColor::Weak);
        self.white = Player::new(PlayerKind::White, PColor::Strong);
        self.winner = None;
    }

    pub fn get_p_board(&self) -> (r: &ProbabilityBoard)
        ensures
            *r == self.spec_board(),
    {
        &self.p_board
    }

    /// The last observation.
    pub fn get_observed_board(&self) -> (r: &ObservedBoard)
        ensures
            *r == self.spec_observed(),
    {
        &self.observed_board
    }

    /// The side that won, once the game is over.
    pub fn winner(&self) -> (r: Option<PlayerKind>)
        ensures
            r == self.spec_winner(),
    {
        self.winner
    }

    /// Whether `(x, y)` is on the board and free.
    pub fn is_valid_position(&self, x: usize, y: usize) -> (r: bool)
        ensures
            r == (in_bounds(x as int, y as int) && p_cell(self.spec_board(), x as int, y as int)
                is None),
    {
        self.check_position(x, y, None)
    }

    pub fn turn(&self) -> (r: PlayerKind)
        ensures
            r == self.spec_turn(),
    {
        self.turn
    }

    /// Percent chance that the next stone of the side to move is observed as Black.
    pub fn get_turn_p(&self) -> (r: u8)
        ensures
            r == black_percent(stone_of(self.spec_turn(), self.spec_pending(self.spec_turn()))),
    {
        match self.turn {
            PlayerKind::Black => match self.black.next_stone() {
                PColor::Strong => 90,
                PColor::Weak => 70,
            },
            PlayerKind::White => match self.white.next_stone() {
                PColor::Strong => 10,
                PColor::Weak => 30,
            },
        }
    }

    fn check_position(&self, x: usize, y: usize, value: Option<Color>) -> (r: bool)
        ensures
            r == (in_bounds(x as int, y as int) && p_cell(self.spec_board(), x as int, y as int)
                == value),
    {
        x < BOARD_SIZE && y < BOARD_SIZE && self.p_board[y][x] == value
    }

    /// Places the next stone of the side to move at `(x, y)` and passes the turn.
    /// Nothing changes when it fails.
    pub fn place_stone_prohibitly(&mut self, x: usize, y: usize) -> (r: Result<Color, GameError>)
        ensures
            old(self).spec_winner() is Some ==> r == Err::<Color, GameError>(
                GameError::GameIsAlreadyOver,
            ),
            old(self).spec_winner() is None && !in_bounds(x as int, y as int) ==> r == Err::<
                Color,
                GameError,
            >(GameError::InvalidPosition(None)),
            old(self).spec_winner() is None && in_bounds(x as int, y as int) && p_cell(
                old(self).spec_board(),
                x as int,
                y as int,
            ) is Some ==> r == Err::<Color, GameError>(
                GameError::InvalidPosition(p_cell(old(self).spec_board(), x as int, y as int)),
            ),
            r is Err ==> *final(self) == *old(self),
            old(self).spec_winner() is None && in_bounds(x as int, y as int) && p_cell(
                old(self).spec_board(),
                x as int,
                y as int,
            ) is None ==> r is Ok,
            r matches Ok(c) ==> Game::placement(*old(self), x as int, y as int, c, *final(self)),
    {
        if self.winner.is_some() {
            return Err(GameError::GameIsAlreadyOver);
        }
        if !self.is_valid_position(x, y) {
            if x < BOARD_SIZE && y < BOARD_SIZE {
                return Err(GameError::InvalidPosition(self.p_board[y][x]));
            }
            return Err(GameError::InvalidPosition(None));
        }
        let color = match self.turn {
            PlayerKind::Black => Color::Black(self.black.consume_stone()),
            PlayerKind::White => Color::White(self.white.consume_stone()),
        };
        let ghost before = self.p_board;
        let mut row = self.p_board[y];
        row[x] = Some(color);
        self.p_board[y] = row;
        assert forall|i: int, j: int| in_bounds(i, j) implies p_cell(self.p_board, i, j) == if i
            == x && j == y {
            Some(color)
        } else {
            p_cell(before, i, j)
        } by {
            if j != y {
                assert(self.p_board@[j] == before@[j]);
            }
        }
        self.take_turn();
        Ok(color)
    }

    /// Observes every stone with the given draws out of 100: a stone is seen as
    /// Black when its draw is under its percent. The turn passes, the observation
    /// is kept, and the game goes to a side that now has five in a row.
    pub fn observe_with_draws(&mut self, draws: &[[u8; BOARD_SIZE]; BOARD_SIZE]) -> (r:
        ObservedBoard)
        ensures
            forall|x: int, y: int|
                in_bounds(x, y) ==> o_cell(r, x, y) == collapse(
                    p_cell(old(self).spec_board(), x, y),
                    draws@[y]@[x],
                ),
            Game::observation(*old(self), r, *final(self)),
    {
        let mut observed: ObservedBoard = [[None; BOARD_SIZE]; BOARD_SIZE];
        let mut y: usize = 0;
        while y < BOARD_SIZE
            invariant
                y <= BOARD_SIZE,
                forall|i: int, j: int|
                    0 <= j < y && 0 <= i < BOARD_SIZE ==> o_cell(observed, i, j) == collapse(
                        p_cell(self.p_board, i, j),
                        draws@[j]@[i],
                    ),
            decreases BOARD_SIZE - y,
        {
            let mut row: [Option<PlayerKind>; BOARD_SIZE] = [None; BOARD_SIZE];
            let mut x: usize = 0;
            while x < BOARD_SIZE
                invariant
                    x <= BOARD_SIZE,
                    y < BOARD_SIZE,
                    forall|i: int, j: int|
                        0 <= j < y && 0 <= i < BOARD_SIZE ==> o_cell(observed, i, j) == collapse(
                            p_cell(self.p_board, i, j),
                            draws@[j]@[i],
                        ),
                    forall|i: int|
                        0 <= i < x ==> row@[i] == collapse(
                            p_cell(self.p_board, i, y as int),
                            draws@[y as int]@[i],
                        ),
                decreases BOARD_SIZE - x,
            {
                row[x] = match self.p_board[y][x] {
                    Some(color) => Some(resolve(color, draws[y][x])),
                    None => None,
                };
                x = x + 1;
            }
            let ghost before = observed;
            observed[y] = row;
            assert forall|i: int, j: int|
                0 <= j < y + 1 && 0 <= i < BOARD_SIZE implies o_cell(observed, i, j) == collapse(
                p_cell(self.p_board, i, j),
                draws@[j]@[i],
            ) by {
                if j != y {
                    assert(o_cell(before, i, j) == collapse(p_cell(self.p_board, i, j), draws@[j]@[i]));
                    assert(observed@[j] == before@[j]);
                } else {
                    assert(observed@[j] == row);
                    assert(row@[i] == collapse(p_cell(self.p_board, i, j), draws@[j]@[i]));
                }
            }
            y = y + 1;
        }
        self.take_turn();
        self.observed_board = observed;
        if self.winner.is_none() {
            let winners = winners_of(&self.observed_board);
            self.winner = decide_winner(&winners, self.turn);
        }
        observed
    }

    /// Observes every stone at random and otherwise does what
    /// `observe_with_draws` does: each stone is seen as one side or the other,
    /// and every free cell stays free.
    pub fn observe(&mut self) -> (r: ObservedBoard)
        ensures
            forall|x: int, y: int|
                in_bounds(x, y) ==> (o_cell(r, x, y) is Some <==> p_cell(
                    old(self).spec_board(),
                    x,
                    y,
                ) is Some),
            Game::observation(*old(self), r, *final(self)),
    {
        let mut draws: [[u8; BOARD_SIZE]; BOARD_SIZE] = [[0u8; BOARD_SIZE]; BOARD_SIZE];
        let mut y: usize = 0;
        while y < BOARD_SIZE
            invariant
                y <= BOARD_SIZE,
            decreases BOARD_SIZE - y,
        {
            let mut row: [u8; BOARD_SIZE] = [0u8; BOARD_SIZE];
            let mut x: usize = 0;
            while x < BOARD_SIZE
                invariant
                    x <= BOARD_SIZE,
                    y < BOARD_SIZE,
                decreases BOARD_SIZE - x,
            {
                row[x] = draw_percent();
                x = x + 1;
            }
            draws[y] = row;
            y = y + 1;
        }
        self.observe_with_draws(&draws)
    }

    /// The sides that have five in a row in the last observation.
    pub fn get_winners(&mut self) -> (r: WinnerSet)
        ensures
            *final(self) == *old(self),
            forall|k: PlayerKind| r@.contains(k) == has_five(old(self).spec_observed(), k),
    {
        winners_of(&self.observed_board)
    }

    fn take_turn(&mut self)
        ensures
            final(self).spec_turn() == opponent(old(self).spec_turn()),
            final(self).spec_board() == old(self).spec_board(),
            final(self).spec_observed() == old(self).spec_observed(),
            final(self).spec_winner() == old(self).spec_winner(),
            final(self).black == old(self).black,
            final(self).white == old(self).white,
    {
        self.turn = match self.turn {
            PlayerKind::Black => PlayerKind::White,
            PlayerKind::White => PlayerKind::Black,
        };
    }
}


/// Percents out of 100 of being seen Black, cell by cell, as the display shows them.
pub type PercentBoard = [[Option<u8>; BOARD_SIZE]; BOARD_SIZE];

/// Each stone's percent chance of being seen Black; free cells stay free.
pub fn convert_board(board: &ProbabilityBoard) -> (r: PercentBoard)
    ensures
        forall|x: int, y: int|
            in_bounds(x, y) ==> r@[y]@[x] == match p_cell(*board, x, y) {
                Some(c) => Some(black_percent(c)),
                None => None::<u8>,
            },
{
    let mut result: PercentBoard = [[None; BOARD_SIZE]; BOARD_SIZE];
    let mut y: usize = 0;
    while y < BOARD_SIZE
        invariant
            y <= BOARD_SIZE,
            forall|i: int, j: int|
                0 <= j < y && 0 <= i < BOARD_SIZE ==> result@[j]@[i] == match p_cell(*board, i, j) {
                    Some(c) => Some(black_percent(c)),
                    None => None::<u8>,
                },
        decreases BOARD_SIZE - y,
    {
        let mut row: [Option<u8>; BOARD_SIZE] = [None; BOARD_SIZE];
        let mut x: usize = 0;
        while x < BOARD_SIZE
            invariant
                x <= BOARD_SIZE,
                y < BOARD_SIZE,
                forall|i: int|
                    0 <= i < x ==> row@[i] == match p_cell(*board, i, y as int) {
                        Some(c) => Some(black_percent(c)),
                        None => None::<u8>,
                    },
            decreases BOARD_SIZE - x,
        {
            row[x] = match board[y][x] {
                Some(c) => Some(c.percent()),
                None => None,
            };
            x = x + 1;
        }
        let ghost before = result;
        result[y] = row;
        assert forall|i: int, j: int| 0 <= j < y + 1 && 0 <= i < BOARD_SIZE implies result@[j]@[i]
            == match p_cell(*board, i, j) {
            Some(c) => Some(black_percent(c)),
            None => None::<u8>,
        } by {
            if j != y {
                assert(result@[j] == before@[j]);
            } else {
                assert(result@[j] == row);
            }
        }
        y = y + 1;
    }
    result
}

/// An observation as the display shows it: 100 for Black, 0 for White.
pub fn observed_percents(board: &ObservedBoard) -> (r: PercentBoard)
    ensures
        forall|x: int, y: int|
            in_bounds(x, y) ==> r@[y]@[x] == match o_cell(*board, x, y) {
                Some(PlayerKind::Black) => Some(100u8),
                Some(PlayerKind::White) => Some(0u8),
                None => None::<u8>,
            },
{
    let mut result: PercentBoard = [[None; BOARD_SIZE]; BOARD_SIZE];
    let mut y: usize = 0;
    while y < BOARD_SIZE
        invariant
            y <= BOARD_SIZE,
            forall|i: int, j: int|
                0 <= j < y && 0 <= i < BOARD_SIZE ==> result@[j]@[i] == match o_cell(*board, i, j) {
                    Some(PlayerKind::Black) => Some(100u8),
                    Some(PlayerKind::White) => Some(0u8),
                    None => None::<u8>,
                },
        decreases BOARD_SIZE - y,
    {
        let mut row: [Option<u8>; BOARD_SIZE] = [None; BOARD_SIZE];
        let mut x: usize = 0;
        while x < BOARD_SIZE
            invariant
                x <= BOARD_SIZE,
                y < BOARD_SIZE,
                forall|i: int|
                    0 <= i < x ==> row@[i] == match o_cell(*board, i, y as int) {
                        Some(PlayerKind::Black) => Some(100u8),
                        Some(PlayerKind::White) => Some(0u8),
                        None => None::<u8>,
                    },
            decreases BOARD_SIZE - x,
        {
            row[x] = match board[y][x] {
                Some(PlayerKind::Black) => Some(100),
                Some(PlayerKind::White) => Some(0),
                None => None,
            };
            x = x + 1;
        }
        let ghost before = result;
        result[y] = row;
        assert forall|i: int, j: int| 0 <= j < y + 1 && 0 <= i < BOARD_SIZE implies result@[j]@[i]
            == match o_cell(*board, i, j) {
            Some(PlayerKind::Black) => Some(100u8),
            Some(PlayerKind::White) => Some(0u8),
            None => None::<u8>,
        } by {
            if j != y {
                assert(result@[j] == before@[j]);
            } else {
                assert(result@[j] == row);
            }
        }
        y = y + 1;
    }
    result
}

} // verus!
