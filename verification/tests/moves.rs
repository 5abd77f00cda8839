use gungi::board::{
    abs_diff, check_move_map, check_move_special, empty_board, get_move_special, move_piece,
    move_piece_in_place, vertical_flip, Board, MoveError, MoveSpecial, StepError, Tier,
};
use gungi::pieces::{Color, Piece, PieceCombination, PieceType, SideType, Tower};

fn same_fields(a: &Piece, b: &Piece) -> bool {
    a.current_side == b.current_side
        && a.front_side == b.front_side
        && a.back_side == b.back_side
        && a.color == b.color
}

fn same_towers(a: &Tower, b: &Tower) -> bool {
    match (a, b) {
        (Tower::Empty, Tower::Empty) => true,
        (Tower::Single(a1), Tower::Single(b1)) => same_fields(a1, b1),
        (Tower::Double(a1, a2), Tower::Double(b1, b2)) => {
            same_fields(a1, b1) && same_fields(a2, b2)
        }
        (Tower::Triple(a1, a2, a3), Tower::Triple(b1, b2, b3)) => {
            same_fields(a1, b1) && same_fields(a2, b2) && same_fields(a3, b3)
        }
        _ => false,
    }
}

/// All 81 towers agree field by field.
fn same_boards(a: &Board, b: &Board) -> bool {
    (0..9).all(|i| (0..9).all(|j| same_towers(&a[i][j], &b[i][j])))
}

fn count_pieces(board: &Board) -> usize {
    let mut count = 0;
    for file in board {
        for tower in file {
            count += match tower {
                Tower::Empty => 0,
                Tower::Single(_) => 1,
                Tower::Double(_, _) => 2,
                Tower::Triple(_, _, _) => 3,
            };
        }
    }
    count
}

fn pieces() -> (Piece, Piece, Piece) {
    (
        Piece::new(PieceCombination::PawnGold, Color::Black),
        Piece::new(PieceCombination::BowArrow, Color::White),
        Piece {
            current_side: SideType::Back,
            front_side: PieceType::Prodigy,
            back_side: PieceType::Phoenix,
            color: Color::Black,
        },
    )
}

/// A board with towers of every height on it.
fn busy_board() -> Board {
    let (bottom, middle, top) = pieces();
    let mut board = empty_board();
    board[0][1] = Tower::Double(bottom, middle);
    board[1][0] = Tower::Single(bottom);
    board[1][1] = Tower::Triple(bottom, middle, top);
    board[5][5] = Tower::Triple(top, bottom, middle);
    board[8][8] = Tower::Single(top);
    board
}

#[test]
fn empty_board_has_81_empty_towers() {
    let board = empty_board();
    assert_eq!(board.len(), 9);
    for file in &board {
        assert_eq!(file.len(), 9);
        for tower in file {
            assert!(same_towers(tower, &Tower::Empty));
        }
    }
    assert_eq!(count_pieces(&board), 0);
    assert!(same_boards(&board, &[[Tower::Empty; 9]; 9]));
}

#[test]
fn move_from_triple_onto_empty() {
    let (bottom, middle, top) = pieces();
    let mut board = empty_board();
    board[5][5] = Tower::Triple(bottom, middle, top);
    let next = move_piece(board, 5, 5, 6, 6).unwrap();
    assert!(same_towers(&next[5][5], &Tower::Double(bottom, middle)));
    assert!(same_towers(&next[6][6], &Tower::Single(top)));
    for i in 0..9 {
        for j in 0..9 {
            if (i, j) != (5, 5) && (i, j) != (6, 6) {
                assert!(same_towers(&next[i][j], &Tower::Empty));
            }
        }
    }
}

#[test]
fn move_from_empty_square_fails_with_source_empty() {
    for destination in [Tower::Empty, busy_board()[0][1], busy_board()[1][1]] {
        let mut board = busy_board();
        board[0][1] = destination;
        let before = board;
        assert_eq!(move_piece(board, 0, 0, 0, 1), Err(MoveError::SourceEmpty));
        assert_eq!(
            move_piece_in_place(&mut board, 0, 0, 0, 1),
            Err(MoveError::SourceEmpty)
        );
        assert!(same_boards(&board, &before));
    }
}

#[test]
fn move_onto_full_tower_fails_with_destination_full() {
    let mut board = busy_board();
    let before = board;
    assert_eq!(
        move_piece(board, 1, 0, 1, 1),
        Err(MoveError::DestinationFull)
    );
    assert_eq!(
        move_piece_in_place(&mut board, 1, 0, 1, 1),
        Err(MoveError::DestinationFull)
    );
    assert!(same_boards(&board, &before));
}

#[test]
fn empty_source_is_reported_before_full_destination() {
    let board = busy_board();
    assert_eq!(move_piece(board, 0, 0, 1, 1), Err(MoveError::SourceEmpty));
}

#[test]
fn failed_move_leaves_every_square_as_it_was() {
    let before = busy_board();
    for initial_i in 0..9 {
        for initial_j in 0..9 {
            for (end_i, end_j) in [(1, 1), (5, 5), (0, 0), (0, 1)] {
                let mut board = before;
                let result = move_piece_in_place(&mut board, initial_i, initial_j, end_i, end_j);
                if result.is_err() {
                    assert!(same_boards(&board, &before));
                }
                let source_empty = matches!(before[initial_i][initial_j], Tower::Empty);
                let destination_full = matches!(before[end_i][end_j], Tower::Triple(_, _, _));
                let expected = if source_empty {
                    Err(MoveError::SourceEmpty)
                } else if destination_full {
                    Err(MoveError::DestinationFull)
                } else {
                    Ok(())
                };
                assert_eq!(result, expected);
            }
        }
    }
}

#[test]
fn move_in_place_and_by_value_agree() {
    let before = busy_board();
    let mut board = before;
    assert_eq!(move_piece_in_place(&mut board, 0, 1, 8, 8), Ok(()));
    let next = move_piece(before, 0, 1, 8, 8).unwrap();
    assert!(same_boards(&board, &next));
    let (bottom, middle, top) = pieces();
    assert!(same_towers(&next[0][1], &Tower::Single(bottom)));
    assert!(same_towers(&next[8][8], &Tower::Double(top, middle)));
    assert!(!same_boards(&before, &next));
}

#[test]
fn move_between_squares_keeps_the_number_of_pieces() {
    let before = busy_board();
    let next = move_piece(before, 1, 1, 0, 1).unwrap();
    assert_eq!(count_pieces(&before), 10);
    assert_eq!(count_pieces(&next), 10);
    let next = move_piece(next, 0, 1, 3, 3).unwrap();
    assert_eq!(count_pieces(&next), 10);
}

#[test]
fn move_onto_the_same_square_repeats_the_top_piece() {
    let (bottom, middle, _) = pieces();
    let before = busy_board();
    let next = move_piece(before, 1, 0, 1, 0).unwrap();
    assert!(same_towers(&next[1][0], &Tower::Double(bottom, bottom)));
    assert_eq!(count_pieces(&next), count_pieces(&before) + 1);
    let next = move_piece(before, 0, 1, 0, 1).unwrap();
    assert!(same_towers(&next[0][1], &Tower::Triple(bottom, middle, middle)));
    assert_eq!(
        move_piece(before, 1, 1, 1, 1),
        Err(MoveError::DestinationFull)
    );
}

#[test]
fn move_may_build_an_invalid_tower() {
    let pawn = Piece::new(PieceCombination::PawnGold, Color::Black);
    let other_pawn = Piece::new(PieceCombination::PawnSilver, Color::Black);
    let mut board = empty_board();
    board[2][2] = Tower::Single(pawn);
    board[2][3] = Tower::Single(other_pawn);
    let next = move_piece(board, 2, 2, 2, 3).unwrap();
    assert!(same_towers(&next[2][3], &Tower::Double(other_pawn, pawn)));
    assert!(!next[2][3].is_valid());
}

#[test]
fn special_moves_on_named_squares() {
    assert!(check_move_special(MoveSpecial::Rook, 5, 3, 5, 7));
    assert!(!check_move_special(MoveSpecial::Rook, 5, 3, 6, 2));
    assert!(check_move_special(MoveSpecial::Bishop, 5, 5, 7, 3));
    assert!(!check_move_special(MoveSpecial::Bishop, 5, 5, 6, 5));
    assert!(check_move_special(
        MoveSpecial::Forward(Color::Black),
        1,
        0,
        1,
        7
    ));
    assert!(!check_move_special(
        MoveSpecial::Forward(Color::Black),
        0,
        5,
        0,
        2
    ));
}

#[test]
fn special_moves_agree_with_their_definition_on_the_whole_board() {
    for start_i in 0..9usize {
        for start_j in 0..9usize {
            for end_i in 0..9usize {
                for end_j in 0..9usize {
                    let files = start_i.max(end_i) - start_i.min(end_i);
                    let ranks = start_j.max(end_j) - start_j.min(end_j);
                    let check = |special| check_move_special(special, start_i, start_j, end_i, end_j);
                    assert!(!check(MoveSpecial::Normal));
                    assert_eq!(check(MoveSpecial::Rook), files == 0 || ranks == 0);
                    assert_eq!(check(MoveSpecial::Bishop), files == ranks);
                    assert_eq!(
                        check(MoveSpecial::Forward(Color::Black)),
                        files == 0 && end_j > start_j
                    );
                    assert_eq!(
                        check(MoveSpecial::Forward(Color::White)),
                        files == 0 && end_j < start_j
                    );
                }
            }
        }
    }
}

#[test]
fn rook_and_bishop_reach_back_and_forward_turns_round() {
    for start in 0..81usize {
        for end in 0..81usize {
            let (start_i, start_j, end_i, end_j) = (start / 9, start % 9, end / 9, end % 9);
            for special in [MoveSpecial::Rook, MoveSpecial::Bishop] {
                assert_eq!(
                    check_move_special(special, start_i, start_j, end_i, end_j),
                    check_move_special(special, end_i, end_j, start_i, start_j)
                );
            }
            let forward = check_move_special(
                MoveSpecial::Forward(Color::Black),
                start_i,
                start_j,
                end_i,
                end_j,
            );
            assert_eq!(
                forward,
                check_move_special(
                    MoveSpecial::Forward(Color::White),
                    end_i,
                    end_j,
                    start_i,
                    start_j
                )
            );
            if forward {
                assert!(check_move_special(
                    MoveSpecial::Rook,
                    start_i,
                    start_j,
                    end_i,
                    end_j
                ));
                assert!(start != end);
            }
        }
    }
}

#[test]
fn special_moves_far_off_the_board() {
    let far = usize::MAX;
    assert!(check_move_special(MoveSpecial::Bishop, 0, 0, far, far));
    assert!(check_move_special(MoveSpecial::Bishop, far, 0, 0, far));
    assert!(!check_move_special(MoveSpecial::Bishop, far, 0, 0, far - 1));
    assert!(check_move_special(MoveSpecial::Rook, far, 3, far, 0));
    assert!(check_move_special(
        MoveSpecial::Forward(Color::White),
        far,
        far,
        far,
        0
    ));
}

#[test]
fn distance_between_coordinates() {
    assert_eq!(abs_diff(0, usize::MAX), usize::MAX);
    assert_eq!(abs_diff(usize::MAX, 0), usize::MAX);
    assert_eq!(abs_diff(8, 3), 5);
    assert_eq!(abs_diff(3, 8), 5);
}

#[test]
fn step_from_a_coordinate() {
    assert_eq!(gungi::board::add(2, 3), Ok(5));
    assert_eq!(gungi::board::add(7, 0), Ok(7));
    assert_eq!(gungi::board::add(3, -3), Ok(0));
    assert_eq!(gungi::board::add(3, -4), Err(StepError::Negative));
    assert_eq!(gungi::board::add(0, i32::MIN), Err(StepError::Negative));
    assert_eq!(gungi::board::add(2147483648, i32::MIN), Ok(0));
    assert_eq!(gungi::board::add(2147483647, i32::MIN), Err(StepError::Negative));
    assert_eq!(gungi::board::add(0, i32::MAX), Ok(2147483647));
    assert_eq!(gungi::board::add(usize::MAX, 0), Ok(usize::MAX));
    assert_eq!(gungi::board::add(usize::MAX, -1), Ok(usize::MAX - 1));
    assert_eq!(gungi::board::add(usize::MAX, 1), Err(StepError::TooLarge));
    assert_eq!(
        gungi::board::add(usize::MAX - 5, 6),
        Err(StepError::TooLarge)
    );
    assert_eq!(gungi::board::add(usize::MAX - 5, 5), Ok(usize::MAX));
}

#[test]
fn bow_move_map_on_named_squares() {
    let bow_move_map = vec![(0, 1), (0, -1), (-2, 2), (2, 2)];
    assert!(check_move_map(&bow_move_map, 5, 5, 5, 6));
    assert!(!check_move_map(&bow_move_map, 5, 5, 5, 5));
}

#[test]
fn empty_move_map_reaches_nothing() {
    let nothing: Vec<(i32, i32)> = Vec::new();
    for square in 0..81usize {
        assert!(!check_move_map(&nothing, 4, 4, square / 9, square % 9));
    }
}

#[test]
fn move_map_reaches_exactly_its_steps() {
    let move_map = vec![(0, 1), (0, -1), (-2, 2), (2, 2), (-6, -6)];
    for start in 0..81i32 {
        for end in 0..81i32 {
            let (start_i, start_j, end_i, end_j) = (start / 9, start % 9, end / 9, end % 9);
            let expected = move_map
                .iter()
                .any(|step| start_i + step.0 == end_i && start_j + step.1 == end_j);
            assert_eq!(
                check_move_map(
                    &move_map,
                    start_i as usize,
                    start_j as usize,
                    end_i as usize,
                    end_j as usize
                ),
                expected
            );
        }
    }
}

#[test]
fn steps_below_zero_reach_nothing() {
    let move_map = vec![(-1, 0), (0, -1), (-3, -3), (i32::MIN, i32::MIN)];
    for end in 0..81usize {
        assert!(!check_move_map(&move_map, 0, 0, end / 9, end % 9));
    }
    assert!(check_move_map(&move_map, 3, 3, 0, 0));
    assert!(check_move_map(&move_map, 1, 0, 0, 0));
}

#[test]
fn steps_are_not_cut_to_fit() {
    let stay = vec![(0, 0)];
    assert!(check_move_map(&stay, usize::MAX, 7, usize::MAX, 7));
    assert!(!check_move_map(&stay, usize::MAX, 7, 7, 7));
    let up = vec![(1, 1)];
    assert!(!check_move_map(&up, usize::MAX, usize::MAX, 0, 0));
    assert!(check_move_map(&up, usize::MAX - 1, 0, usize::MAX, 1));
    let wide = 65536usize * 65536;
    if wide != 0 {
        assert!(!check_move_map(&stay, wide + 5, 5, 5, 5));
        assert!(!check_move_map(&up, wide - 1, 0, 0, 1));
        assert!(check_move_map(&up, wide - 1, 0, wide, 1));
    }
    let largest = vec![(i32::MAX, i32::MAX)];
    assert!(check_move_map(&largest, 5, 0, 2147483652, 2147483647));
    assert!(!check_move_map(&largest, 5, 0, 4, 2147483647));
}

#[test]
fn flip_negates_the_rank_steps() {
    let move_map = vec![(3, 4), (-3, -4), (0, 0), (i32::MIN, i32::MAX), (i32::MAX, -i32::MAX)];
    let flipped = vertical_flip(&move_map);
    assert_eq!(
        flipped,
        vec![(3, -4), (-3, 4), (0, 0), (i32::MIN, -i32::MAX), (i32::MAX, i32::MAX)]
    );
    assert_eq!(vertical_flip(&flipped), move_map);
    assert_eq!(vertical_flip(&Vec::new()), Vec::new());
}

#[test]
fn flipped_map_reaches_the_mirror_squares() {
    let move_map = vec![(0, 1), (0, -1), (-2, 2), (2, 2)];
    let flipped = vertical_flip(&move_map);
    for end in 0..81usize {
        let (end_i, end_j) = (end / 9, end % 9);
        assert_eq!(
            check_move_map(&flipped, 4, 4, end_i, end_j),
            check_move_map(&move_map, 4, 4, end_i, 8 - end_j)
        );
    }
    assert!(check_move_map(&flipped, 5, 5, 3, 3));
    assert!(!check_move_map(&move_map, 5, 5, 3, 3));
}

#[test]
fn joined_move_maps_reach_what_either_reaches() {
    let first = vec![(0, 1), (1, 0)];
    let second = vec![(-1, -1)];
    let mut both = first.clone();
    both.extend(second.iter().copied());
    for end in 0..81usize {
        let (end_i, end_j) = (end / 9, end % 9);
        assert_eq!(
            check_move_map(&both, 4, 4, end_i, end_j),
            check_move_map(&first, 4, 4, end_i, end_j)
                || check_move_map(&second, 4, 4, end_i, end_j)
        );
    }
}

#[test]
fn special_move_of_every_type_and_tier() {
    let types = [
        PieceType::Commander,
        PieceType::Captain,
        PieceType::Samurai,
        PieceType::Spy,
        PieceType::Catapult,
        PieceType::Fortress,
        PieceType::HiddenDragon,
        PieceType::Prodigy,
        PieceType::Bow,
        PieceType::Pawn,
        PieceType::Pistol,
        PieceType::Pike,
        PieceType::Clandestinite,
        PieceType::Lance,
        PieceType::DragonKing,
        PieceType::Phoenix,
        PieceType::Arrow,
        PieceType::Bronze,
        PieceType::Silver,
        PieceType::Gold,
    ];
    for piece_type in types {
        for color in [Color::Black, Color::White] {
            let expected = match piece_type {
                PieceType::HiddenDragon | PieceType::DragonKing => MoveSpecial::Rook,
                PieceType::Prodigy | PieceType::Phoenix => MoveSpecial::Bishop,
                PieceType::Lance => MoveSpecial::Forward(color),
                _ => MoveSpecial::Normal,
            };
            assert_eq!(get_move_special(piece_type, color, Tier::One), expected);
            assert_eq!(
                get_move_special(piece_type, color, Tier::Two),
                MoveSpecial::Normal
            );
            assert_eq!(
                get_move_special(piece_type, color, Tier::Three),
                MoveSpecial::Normal
            );
        }
    }
}
