use apple_grid::board::Board;
use apple_grid::field::Field;
use apple_grid::loc::Loc;
use apple_grid::placement::{draw_interior, PlacementError, APPLES, MAX_DRAWS};

fn all_distinct(cells: &[Loc]) -> bool {
    (0..cells.len()).all(|i| (0..i).all(|j| cells[i] != cells[j]))
}

fn full_interior() -> Vec<Loc> {
    let mut cells = Vec::new();
    for row in 1..=6 {
        for col in 1..=6 {
            cells.push(Loc { row, col });
        }
    }
    cells
}

#[test]
fn constants_of_a_layout() {
    assert_eq!(APPLES, 7);
    assert_eq!(MAX_DRAWS, 10_000);
}

#[test]
fn draw_interior_stays_inside_the_wall() {
    let mut rng = rand::thread_rng();
    for _ in 0..2000 {
        assert!(draw_interior(&mut rng).is_interior());
    }
}

#[test]
fn draw_interior_reaches_every_cell() {
    let mut rng = rand::thread_rng();
    let mut seen = [[false; 8]; 8];
    for _ in 0..20_000 {
        let at = draw_interior(&mut rng);
        seen[at.row][at.col] = true;
    }
    for row in 1..=6 {
        for col in 1..=6 {
            assert!(seen[row][col]);
        }
    }
}

#[test]
fn new_game_lays_out_seven_apples_and_the_player() {
    let mut rng = rand::thread_rng();
    for _ in 0..500 {
        let board = Board::new_game(&mut rng).unwrap();
        assert_eq!(board.apples_positions.len(), 7);
        assert!(all_distinct(&board.apples_positions));
        assert!(board.apples_positions.iter().all(|apple| apple.is_interior()));
        assert!(board.player_position.is_interior());
        assert!(!board.apples_positions.contains(&board.player_position));
        assert!(!board.has_apple(board.player_position));
        assert_eq!(board.field, vec![vec![Field::Empty; 8]; 8]);
        assert!(!board.no_apples_left());
    }
}

#[test]
fn new_game_differs_from_game_to_game() {
    let mut rng = rand::thread_rng();
    let first = Board::new_game(&mut rng).unwrap();
    let differs = (0..50).any(|_| {
        let next = Board::new_game(&mut rng).unwrap();
        next.apples_positions != first.apples_positions
            || next.player_position != first.player_position
    });
    assert!(differs);
}

#[test]
fn generate_apples_fills_a_blank_board() {
    let mut rng = rand::thread_rng();
    let mut board = Board::initialize_board();
    assert_eq!(board.generate_apples(&mut rng), Ok(()));
    assert_eq!(board.apples_positions.len(), 7);
    assert!(all_distinct(&board.apples_positions));
    assert!(board.apples_positions.iter().all(|apple| apple.is_interior()));
    assert_eq!(board.player_position, Loc { row: 0, col: 0 });
    assert_eq!(board.field, vec![vec![Field::Empty; 8]; 8]);
}

#[test]
fn generate_apples_keeps_the_apples_that_are_there() {
    let mut rng = rand::thread_rng();
    let mut board = Board::initialize_board();
    let given = vec![Loc { row: 2, col: 2 }, Loc { row: 5, col: 1 }, Loc { row: 1, col: 6 }];
    board.apples_positions = given.clone();
    assert_eq!(board.generate_apples(&mut rng), Ok(()));
    assert_eq!(board.apples_positions.len(), 7);
    assert_eq!(board.apples_positions[..3], given[..]);
    assert!(all_distinct(&board.apples_positions));
    assert!(board.apples_positions.iter().all(|apple| apple.is_interior()));
}

#[test]
fn generate_apples_leaves_a_board_with_seven_or_more() {
    let mut rng = rand::thread_rng();
    let mut board = Board::initialize_board();
    let seven: Vec<Loc> = full_interior().into_iter().take(7).collect();
    board.apples_positions = seven.clone();
    assert_eq!(board.generate_apples(&mut rng), Ok(()));
    assert_eq!(board.apples_positions, seven);
    let nine: Vec<Loc> = full_interior().into_iter().take(9).collect();
    board.apples_positions = nine.clone();
    assert_eq!(board.generate_apples(&mut rng), Ok(()));
    assert_eq!(board.apples_positions, nine);
}

#[test]
fn generate_player_avoids_the_apples() {
    let mut rng = rand::thread_rng();
    for _ in 0..200 {
        let mut board = Board::initialize_board();
        let mut apples = full_interior();
        apples.retain(|apple| *apple != Loc { row: 4, col: 5 } && *apple != Loc { row: 2, col: 2 });
        board.apples_positions = apples.clone();
        assert_eq!(board.generate_player(&mut rng), Ok(()));
        let player = board.player_position;
        assert!(player == Loc { row: 4, col: 5 } || player == Loc { row: 2, col: 2 });
        assert_eq!(board.apples_positions, apples);
    }
}

#[test]
fn generate_player_succeeds_where_no_apple_is_inside_the_wall() {
    let mut rng = rand::thread_rng();
    for _ in 0..200 {
        let mut board = Board::initialize_board();
        assert_eq!(board.generate_player(&mut rng), Ok(()));
        assert!(board.player_position.is_interior());
        assert!(board.apples_positions.is_empty());
        let outside = vec![Loc { row: 0, col: 3 }, Loc { row: 7, col: 7 }, Loc { row: 9, col: 2 }];
        board.player_position = Loc { row: 0, col: 0 };
        board.apples_positions = outside.clone();
        assert_eq!(board.generate_player(&mut rng), Ok(()));
        assert!(board.player_position.is_interior());
        assert_eq!(board.apples_positions, outside);
    }
}

#[test]
fn generate_player_fails_on_a_full_board() {
    let mut rng = rand::thread_rng();
    let mut board = Board::initialize_board();
    board.apples_positions = full_interior();
    assert_eq!(board.generate_player(&mut rng), Err(PlacementError::DrawsExhausted));
    assert_eq!(board.player_position, Loc { row: 0, col: 0 });
    assert_eq!(board.apples_positions, full_interior());
}

#[test]
fn place_apple_adds_a_new_apple_once() {
    let mut board = Board::initialize_board();
    assert!(board.place_apple(Loc { row: 2, col: 3 }));
    assert!(board.place_apple(Loc { row: 4, col: 1 }));
    assert!(!board.place_apple(Loc { row: 2, col: 3 }));
    assert_eq!(board.apples_positions, vec![Loc { row: 2, col: 3 }, Loc { row: 4, col: 1 }]);
    assert_eq!(board.player_position, Loc { row: 0, col: 0 });
}

#[test]
fn place_player_refuses_a_cell_with_an_apple() {
    let mut board = Board::initialize_board();
    board.apples_positions = vec![Loc { row: 2, col: 3 }];
    assert!(!board.place_player(Loc { row: 2, col: 3 }));
    assert_eq!(board.player_position, Loc { row: 0, col: 0 });
    assert!(board.place_player(Loc { row: 2, col: 4 }));
    assert_eq!(board.player_position, Loc { row: 2, col: 4 });
    assert_eq!(board.apples_positions, vec![Loc { row: 2, col: 3 }]);
}
