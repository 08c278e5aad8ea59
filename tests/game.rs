use quantum_gomoku::game::{
    check_win_dfs, convert_board, decide_winner, observed_percents, resolve, winners_of, Game, GameError, ObservedBoard, WinnerSet, BOARD_SIZE,
};
use quantum_gomoku::player::{Color, PColor, Player, PlayerKind};

fn empty_observed() -> ObservedBoard {
    [[None; BOARD_SIZE]; BOARD_SIZE]
}

fn occupied_cells(g: &Game) -> Vec<(usize, usize)> {
    let mut cells = Vec::new();
    for y in 0..BOARD_SIZE {
        for x in 0..BOARD_SIZE {
            if g.get_p_board()[y][x].is_some() {
                cells.push((x, y));
            }
        }
    }
    cells
}

#[test]
fn out_of_range_positions_are_refused() {
    let mut g = Game::new();
    for &(x, y) in &[(18, 0), (0, 18), (18, 18), (100, 3), (usize::MAX, 0), (0, usize::MAX)] {
        assert!(!g.is_valid_position(x, y));
        assert_eq!(
            g.place_stone_prohibitly(x, y),
            Err(GameError::InvalidPosition(None))
        );
    }
    assert_eq!(g.turn(), PlayerKind::Black);
    assert!(occupied_cells(&g).is_empty());
    assert!(g.is_valid_position(17, 17));
    assert!(g.is_valid_position(0, 0));
}

#[test]
fn occupied_cell_is_refused_and_board_kept() {
    let mut g = Game::new();
    assert_eq!(g.place_stone_prohibitly(3, 4), Ok(Color::Black(PColor::Weak)));
    let before = *g.get_p_board();
    assert!(!g.is_valid_position(3, 4));
    assert_eq!(
        g.place_stone_prohibitly(3, 4),
        Err(GameError::InvalidPosition(Some(Color::Black(PColor::Weak))))
    );
    assert_eq!(*g.get_p_board(), before);
    assert_eq!(g.turn(), PlayerKind::White);
    assert_eq!(g.get_turn_p(), 10);
}

#[test]
fn turn_alternates_on_placement_and_observation() {
    let mut g = Game::new();
    assert_eq!(g.turn(), PlayerKind::Black);
    g.place_stone_prohibitly(0, 0).unwrap();
    assert_eq!(g.turn(), PlayerKind::White);
    g.observe();
    assert_eq!(g.turn(), PlayerKind::Black);
    g.observe();
    assert_eq!(g.turn(), PlayerKind::White);
    g.place_stone_prohibitly(5, 5).unwrap();
    assert_eq!(g.turn(), PlayerKind::Black);
    g.place_stone_prohibitly(6, 5).unwrap();
    assert_eq!(g.turn(), PlayerKind::White);
}

#[test]
fn strengths_alternate_per_side() {
    let mut g = Game::new();
    let mut black = Vec::new();
    let mut white = Vec::new();
    for i in 0..3 {
        assert_eq!(g.turn(), PlayerKind::Black);
        let p = g.get_turn_p();
        let c = g.place_stone_prohibitly(i, 0).unwrap();
        assert_eq!(u8::from(c), p);
        black.push(u8::from(c));
        // observing between placements does not change what a side places next
        g.observe();
        g.observe();
        let c = g.place_stone_prohibitly(i, 1).unwrap();
        white.push(c.percent());
    }
    assert_eq!(black, vec![70, 90, 70]);
    assert_eq!(white, vec![10, 30, 10]);
}

#[test]
fn observation_keeps_probability_board() {
    let mut g = Game::new();
    g.place_stone_prohibitly(2, 2).unwrap();
    g.place_stone_prohibitly(7, 9).unwrap();
    g.place_stone_prohibitly(17, 17).unwrap();
    let before = *g.get_p_board();
    for _ in 0..20 {
        let seen = g.observe();
        assert_eq!(*g.get_p_board(), before);
        assert_eq!(*g.get_observed_board(), seen);
        for y in 0..BOARD_SIZE {
            for x in 0..BOARD_SIZE {
                assert_eq!(seen[y][x].is_some(), before[y][x].is_some());
            }
        }
    }
}

#[test]
fn repeated_observation_may_differ() {
    let mut g = Game::new();
    g.place_stone_prohibitly(2, 2).unwrap();
    g.place_stone_prohibitly(3, 2).unwrap();
    let low = g.observe_with_draws(&[[0u8; BOARD_SIZE]; BOARD_SIZE]);
    let high = g.observe_with_draws(&[[99u8; BOARD_SIZE]; BOARD_SIZE]);
    assert_eq!(low[2][2], Some(PlayerKind::Black));
    assert_eq!(low[2][3], Some(PlayerKind::Black));
    assert_eq!(high[2][2], Some(PlayerKind::White));
    assert_eq!(high[2][3], Some(PlayerKind::White));
    assert_ne!(low, high);
}

#[test]
fn resolve_follows_percent() {
    let strong_black = Color::Black(PColor::Strong);
    assert_eq!(resolve(strong_black, 89), PlayerKind::Black);
    assert_eq!(resolve(strong_black, 90), PlayerKind::White);
    let weak_black = Color::Black(PColor::Weak);
    assert_eq!(resolve(weak_black, 69), PlayerKind::Black);
    assert_eq!(resolve(weak_black, 70), PlayerKind::White);
    let strong_white = Color::White(PColor::Strong);
    assert_eq!(resolve(strong_white, 9), PlayerKind::Black);
    assert_eq!(resolve(strong_white, 10), PlayerKind::White);
    let weak_white = Color::White(PColor::Weak);
    assert_eq!(resolve(weak_white, 29), PlayerKind::Black);
    assert_eq!(resolve(weak_white, 30), PlayerKind::White);
}

fn black_share(percent_stone_at: (usize, usize), g: &mut Game, trials: usize) -> f64 {
    let (x, y) = percent_stone_at;
    let mut black = 0usize;
    for _ in 0..trials {
        let seen = g.observe();
        if seen[y][x] == Some(PlayerKind::Black) {
            black += 1;
        }
    }
    black as f64 / trials as f64
}

#[test]
fn observation_frequencies_match_percents() {
    let mut g = Game::new();
    // Black weak (70) at (0,0), White strong (10) at (5,5), Black strong (90) at (10,10)
    g.place_stone_prohibitly(0, 0).unwrap();
    g.place_stone_prohibitly(5, 5).unwrap();
    g.place_stone_prohibitly(10, 10).unwrap();
    let p90 = black_share((10, 10), &mut g, 10_000);
    assert!((p90 - 0.90).abs() < 0.03, "{}", p90);
    let p10 = black_share((5, 5), &mut g, 10_000);
    assert!((p10 - 0.10).abs() < 0.03, "{}", p10);
    let p70 = black_share((0, 0), &mut g, 10_000);
    assert!((p70 - 0.70).abs() < 0.03, "{}", p70);
}

fn line(start: (usize, usize), d: (isize, isize), n: usize, side: PlayerKind) -> ObservedBoard {
    let mut b = empty_observed();
    for k in 0..n as isize {
        let x = (start.0 as isize + k * d.0) as usize;
        let y = (start.1 as isize + k * d.1) as usize;
        b[y][x] = Some(side);
    }
    b
}

#[test]
fn five_in_any_direction_wins() {
    let cases = [
        ((0, 0), (1, 0)),
        ((13, 17), (1, 0)),
        ((4, 0), (0, 1)),
        ((17, 13), (0, 1)),
        ((2, 3), (1, 1)),
        ((13, 13), (1, 1)),
        ((0, 4), (1, -1)),
        ((13, 17), (1, -1)),
    ];
    for &(start, d) in &cases {
        let w = winners_of(&line(start, d, 5, PlayerKind::White));
        assert!(w.contains(PlayerKind::White));
        assert!(!w.contains(PlayerKind::Black));
        assert_eq!(w.len(), 1);
    }
}

#[test]
fn four_in_a_row_does_not_win() {
    for &(start, d) in &[((0, 0), (1, 0)), ((3, 3), (0, 1)), ((1, 1), (1, 1)), ((0, 5), (1, -1))] {
        let w = winners_of(&line(start, d, 4, PlayerKind::Black));
        assert_eq!(w.len(), 0);
    }
    // four, a gap, then more of the same side
    let mut b = line((0, 0), (1, 0), 4, PlayerKind::Black);
    b[0][5] = Some(PlayerKind::Black);
    b[0][6] = Some(PlayerKind::Black);
    assert_eq!(winners_of(&b).len(), 0);
    // four broken by the other side
    let mut b = line((0, 0), (1, 0), 5, PlayerKind::Black);
    b[0][2] = Some(PlayerKind::White);
    assert_eq!(winners_of(&b).len(), 0);
}

#[test]
fn both_sides_can_have_five() {
    let mut b = line((0, 0), (1, 0), 5, PlayerKind::Black);
    for x in 0..5 {
        b[2][x] = Some(PlayerKind::White);
    }
    let w = winners_of(&b);
    assert_eq!(w.len(), 2);
    assert!(w.contains(PlayerKind::Black) && w.contains(PlayerKind::White));
}

#[test]
fn two_placements_scenario() {
    let mut g = Game::new();
    assert_eq!(BOARD_SIZE, 18);
    assert_eq!(g.place_stone_prohibitly(0, 0).map(u8::from), Ok(70));
    assert_eq!(g.place_stone_prohibitly(1, 0).map(u8::from), Ok(10));
    assert_eq!(occupied_cells(&g), vec![(0, 0), (1, 0)]);
    assert_eq!(g.get_p_board()[0][0], Some(Color::Black(PColor::Weak)));
    assert_eq!(g.get_p_board()[0][1], Some(Color::White(PColor::Strong)));
}

#[test]
fn invalid_placements_scenario() {
    let mut g = Game::new();
    g.place_stone_prohibitly(4, 4).unwrap();
    let board = *g.get_p_board();
    let turn = g.turn();
    let p = g.get_turn_p();
    assert!(matches!(
        g.place_stone_prohibitly(4, 4),
        Err(GameError::InvalidPosition(_))
    ));
    assert!(matches!(
        g.place_stone_prohibitly(18, 2),
        Err(GameError::InvalidPosition(_))
    ));
    assert!(matches!(
        g.place_stone_prohibitly(2, 40),
        Err(GameError::InvalidPosition(_))
    ));
    assert_eq!(*g.get_p_board(), board);
    assert_eq!(g.turn(), turn);
    assert_eq!(g.get_turn_p(), p);
}

#[test]
fn constructed_board_black_wins_only() {
    let mut b = empty_observed();
    for x in 0..5 {
        b[0][x] = Some(PlayerKind::Black);
    }
    let w = winners_of(&b);
    assert!(w.contains(PlayerKind::Black));
    assert!(!w.contains(PlayerKind::White));
    assert_eq!(w.len(), 1);
}

#[test]
fn placement_after_win_is_refused() {
    let mut g = Game::new();
    for x in 0..5 {
        g.place_stone_prohibitly(x, 0).unwrap();
    }
    // every stone is seen as Black with the lowest draw
    let seen = g.observe_with_draws(&[[0u8; BOARD_SIZE]; BOARD_SIZE]);
    for x in 0..5 {
        assert_eq!(seen[0][x], Some(PlayerKind::Black));
    }
    let w = g.get_winners();
    assert_eq!(w.len(), 1);
    assert!(w.contains(PlayerKind::Black));
    assert_eq!(g.winner(), Some(PlayerKind::Black));
    assert_eq!(
        g.place_stone_prohibitly(10, 10),
        Err(GameError::GameIsAlreadyOver)
    );
    assert_eq!(
        g.place_stone_prohibitly(99, 99),
        Err(GameError::GameIsAlreadyOver)
    );
    // a later observation does not change the winner
    g.observe_with_draws(&[[99u8; BOARD_SIZE]; BOARD_SIZE]);
    assert_eq!(g.winner(), Some(PlayerKind::Black));
}

#[test]
fn no_five_leaves_game_open() {
    let mut g = Game::new();
    for x in 0..4 {
        g.place_stone_prohibitly(x, 0).unwrap();
    }
    g.observe_with_draws(&[[0u8; BOARD_SIZE]; BOARD_SIZE]);
    assert_eq!(g.winner(), None);
    assert_eq!(g.get_winners().len(), 0);
    assert!(g.place_stone_prohibitly(4, 0).is_ok());
}

#[test]
fn double_five_goes_to_observer() {
    let mut g = Game::new();
    for x in 0..5 {
        g.place_stone_prohibitly(x, 0).unwrap();
        g.place_stone_prohibitly(x, 1).unwrap();
    }
    let mut draws = [[0u8; BOARD_SIZE]; BOARD_SIZE];
    draws[1] = [99u8; BOARD_SIZE];
    assert_eq!(g.turn(), PlayerKind::Black);
    g.observe_with_draws(&draws);
    assert_eq!(g.turn(), PlayerKind::White);
    assert_eq!(g.get_winners().len(), 2);
    assert_eq!(g.winner(), Some(PlayerKind::Black));
}

#[test]
fn decide_winner_rules() {
    let none = WinnerSet { black: false, white: false };
    let black = WinnerSet { black: true, white: false };
    let white = WinnerSet { black: false, white: true };
    let both = WinnerSet { black: true, white: true };
    assert_eq!(decide_winner(&none, PlayerKind::Black), None);
    assert_eq!(decide_winner(&black, PlayerKind::Black), Some(PlayerKind::Black));
    assert_eq!(decide_winner(&white, PlayerKind::Black), Some(PlayerKind::White));
    assert_eq!(decide_winner(&both, PlayerKind::White), Some(PlayerKind::Black));
    assert_eq!(decide_winner(&both, PlayerKind::Black), Some(PlayerKind::White));
}

#[test]
fn reset_restores_start() {
    let mut g = Game::new();
    g.place_stone_prohibitly(1, 1).unwrap();
    g.place_stone_prohibitly(2, 1).unwrap();
    g.place_stone_prohibitly(3, 1).unwrap();
    g.observe();
    g.reset();
    assert_eq!(g.turn(), PlayerKind::Black);
    assert_eq!(g.get_turn_p(), 70);
    assert!(occupied_cells(&g).is_empty());
    assert_eq!(*g.get_observed_board(), empty_observed());
    assert_eq!(g.winner(), None);
}

#[test]
fn messages() {
    assert_eq!(GameError::GameIsAlreadyOver.to_string(), "Game is already over");
    assert_eq!(GameError::InvalidPosition(None).to_string(), "Invalid position: None");
    assert_eq!(
        GameError::InvalidPosition(Some(Color::Black(PColor::Strong))).to_string(),
        "Invalid position: black"
    );
    assert_eq!(
        GameError::InvalidPosition(Some(Color::White(PColor::Weak))).to_string(),
        "Invalid position: white"
    );
    assert_eq!(PlayerKind::Black.to_string(), "black");
    assert_eq!(PlayerKind::White.to_string(), "white");
}

#[test]
fn player_and_color_basics() {
    let mut p = Player::new(PlayerKind::White, PColor::Strong);
    assert_eq!(p.next_stone(), PColor::Strong);
    assert_eq!(p.consume_stone(), PColor::Strong);
    assert_eq!(p.next_stone(), PColor::Weak);
    assert_eq!(p.consume_stone(), PColor::Weak);
    assert_eq!(p.next_stone(), PColor::Strong);
    assert_eq!(Color::Black(PColor::Weak).as_player_kind(), PlayerKind::Black);
    assert_eq!(Color::White(PColor::Strong).as_player_kind(), PlayerKind::White);
    assert_eq!(u8::from(Color::Black(PColor::Strong)), 90);
    assert_eq!(u8::from(Color::Black(PColor::Weak)), 70);
    assert_eq!(u8::from(Color::White(PColor::Strong)), 10);
    assert_eq!(u8::from(Color::White(PColor::Weak)), 30);
}

#[test]
fn boards_as_percents() {
    let mut g = Game::new();
    g.place_stone_prohibitly(0, 0).unwrap();
    g.place_stone_prohibitly(1, 0).unwrap();
    g.place_stone_prohibitly(2, 0).unwrap();
    g.place_stone_prohibitly(3, 0).unwrap();
    let b = convert_board(g.get_p_board());
    assert_eq!(b[0][0], Some(70));
    assert_eq!(b[0][1], Some(10));
    assert_eq!(b[0][2], Some(90));
    assert_eq!(b[0][3], Some(30));
    assert_eq!(b[0][4], None);
    assert_eq!(b[5][5], None);
    let mut draws = [[0u8; BOARD_SIZE]; BOARD_SIZE];
    draws[0][1] = 50;
    let seen = g.observe_with_draws(&draws);
    let o = observed_percents(&seen);
    assert_eq!(o[0][0], Some(100));
    assert_eq!(o[0][1], Some(0));
    assert_eq!(o[0][2], Some(100));
    assert_eq!(o[0][3], Some(100));
    assert_eq!(o[0][4], None);
}

#[test]
fn walk_in_any_unit_direction() {
    let b = line((0, 0), (1, 0), 5, PlayerKind::Black);
    assert!(check_win_dfs(&b, 4, 0, (-1, 0), 1));
    assert!(check_win_dfs(&b, 0, 0, (1, 0), 1));
    assert!(!check_win_dfs(&b, 3, 0, (-1, 0), 1));
    assert!(check_win_dfs(&b, 3, 0, (-1, 0), 2));
    assert!(!check_win_dfs(&b, 0, 0, (0, -1), 1));
    assert!(!check_win_dfs(&b, 4, 0, (-1, -1), 1));
    // standing still never leaves the cell
    assert!(check_win_dfs(&b, 2, 0, (0, 0), 1));
    assert!(check_win_dfs(&b, 9, 9, (0, 0), 1));
    assert!(check_win_dfs(&b, 17, 17, (1, 1), 5));
    let v = line((6, 8), (0, 1), 5, PlayerKind::White);
    assert!(check_win_dfs(&v, 6, 12, (0, -1), 1));
    assert!(!check_win_dfs(&v, 6, 11, (0, -1), 1));
}
