use crate::pieces::{Color, PieceType, Tower};
use vstd::prelude::*;

verus! {

/// The number of files and of ranks of the board.
pub const BOARD_SIZE: usize = 9;

/// A Gungi board is a 9x9 board, similar to a Shogi board. The tower on
/// file `i` and rank `j` is `board[i][j]`, with both coordinates below nine
/// and (0, 0) in the bottom left corner. The home edge of Black is rank 0,
/// that of White rank 8.
pub type Board = [[Tower; BOARD_SIZE]; BOARD_SIZE];

/// Why the top piece of one square could not be moved onto another.
#[derive(Clone, Copy, Debug, PartialEq, Eq, Structural)]
pub enum MoveError {
    /// The square to move from holds no piece.
    SourceEmpty,
    /// The square to move to holds three pieces already.
    DestinationFull,
}

/// Both coordinates lie on the board.
pub open spec fn on_board(i: int, j: int) -> bool {
    0 <= i < BOARD_SIZE && 0 <= j < BOARD_SIZE
}

/// The board before the first piece is placed: every square holds the empty
/// tower.
pub fn empty_board() -> (board: Board)
    ensures
        forall|i: int, j: int| on_board(i, j) ==> #[trigger] board[i][j] == Tower::Empty,
        pieces_on_board(board) == 0,
{
    let board = [[Tower::Empty; BOARD_SIZE]; BOARD_SIZE];
    proof {
        reveal_with_fuel(pieces_on_file, 10);
        reveal_with_fuel(pieces_on_files, 10);
        assert(forall|i: int, j: int| on_board(i, j) ==> #[trigger] board[i][j] == Tower::Empty);
    }
    board
}

/// Why the top piece on (initial_i, initial_j) cannot be moved onto
/// (end_i, end_j), if it cannot: there is none, or there is no room for it.
pub open spec fn move_obstacle(
    board: Board,
    initial_i: int,
    initial_j: int,
    end_i: int,
    end_j: int,
) -> Option<MoveError> {
    if board[initial_i][initial_j]@.len() == 0 {
        Some(MoveError::SourceEmpty)
    } else if board[end_i][end_j]@.len() >= Tower::capacity() {
        Some(MoveError::DestinationFull)
    } else {
        None
    }
}

/// `next` is `board` after the top piece on (initial_i, initial_j) went onto
/// (end_i, end_j): the tower on the end square has that piece on top of what
/// it held, the tower on the initial square has lost it, and every other
/// square is as before. Where both squares are one, that square counts as
/// the end square: its tower has its former top piece twice.
pub open spec fn is_moved(
    next: Board,
    board: Board,
    initial_i: int,
    initial_j: int,
    end_i: int,
    end_j: int,
) -> bool {
    let piece = board[initial_i][initial_j]@.last();
    forall|i: int, j: int|
        on_board(i, j) ==> #[trigger] next[i][j] == if i == end_i && j == end_j {
            Tower::from_pieces(board[i][j]@.push(piece))
        } else if i == initial_i && j == initial_j {
            Tower::from_pieces(board[i][j]@.drop_last())
        } else {
            board[i][j]
        }
}

/// Moves the top piece of the tower on (initial_i, initial_j) onto the tower
/// on (end_i, end_j), in place. Either both squares change or the board
/// stays as it was. Fails where there is no piece to move or no room for it,
/// and nowhere else. Whether the piece may move so is not looked at.
pub fn move_piece_in_place(
    board: &mut Board,
    initial_i: usize,
    initial_j: usize,
    end_i: usize,
    end_j: usize,
) -> (result: Result<(), MoveError>)
    requires
        on_board(initial_i as int, initial_j as int),
        on_board(end_i as int, end_j as int),
    ensures
        match result {
            Ok(()) => {
                &&& move_obstacle(
                    *old(board),
                    initial_i as int,
                    initial_j as int,
                    end_i as int,
                    end_j as int,
                ) is None
                &&& is_moved(
                    *final(board),
                    *old(board),
                    initial_i as int,
                    initial_j as int,
                    end_i as int,
                    end_j as int,
                )
            },
            Err(error) => {
                &&& move_obstacle(
                    *old(board),
                    initial_i as int,
                    initial_j as int,
                    end_i as int,
                    end_j as int,
                ) == Some(error)
                &&& *final(board) == *old(board)
            },
        },
{
    let start_tower = board[initial_i][initial_j];
    let end_tower = board[end_i][end_j];
    match start_tower.lift_piece() {
        Err(_) => Err(MoveError::SourceEmpty),
        Ok((lifted_tower, piece)) => match end_tower.drop_piece(piece) {
            Err(_) => Err(MoveError::DestinationFull),
            Ok(dropped_tower) => {
                board[initial_i][initial_j] = lifted_tower;
                board[end_i][end_j] = dropped_tower;
                Ok(())
            },
        },
    }
}

/// Returns the board with the top piece of the tower on (initial_i,
/// initial_j) moved onto the tower on (end_i, end_j). Fails where there is
/// no piece to move or no room for it, and nowhere else.
pub fn move_piece(
    board: Board,
    initial_i: usize,
    initial_j: usize,
    end_i: usize,
    end_j: usize,
) -> (result: Result<Board, MoveError>)
    requires
        on_board(initial_i as int, initial_j as int),
        on_board(end_i as int, end_j as int),
    ensures
        match result {
            Ok(next) => {
                &&& move_obstacle(
                    board,
                    initial_i as int,
                    initial_j as int,
                    end_i as int,
                    end_j as int,
                ) is None
                &&& is_moved(
                    next,
                    board,
                    initial_i as int,
                    initial_j as int,
                    end_i as int,
                    end_j as int,
                )
            },
            Err(error) => move_obstacle(
                board,
                initial_i as int,
                initial_j as int,
                end_i as int,
                end_j as int,
            ) == Some(error),
        },
{
    let mut next = board;
    match move_piece_in_place(&mut next, initial_i, initial_j, end_i, end_j) {
        Ok(()) => Ok(next),
        Err(error) => Err(error),
    }
}

/// The number of pieces on the first `ranks` squares of a file.
pub open spec fn pieces_on_file(file: [Tower; BOARD_SIZE], ranks: int) -> int
    decreases ranks,
{
    if ranks <= 0 {
        0
    } else {
        pieces_on_file(file, ranks - 1) + file[ranks - 1]@.len()
    }
}

/// The number of pieces on the first `files` files of a board.
pub open spec fn pieces_on_files(board: Board, files: int) -> int
    decreases files,
{
    if files <= 0 {
        0
    } else {
        pieces_on_files(board, files - 1) + pieces_on_file(board[files - 1], BOARD_SIZE as int)
    }
}

/// The number of pieces on a board.
pub open spec fn pieces_on_board(board: Board) -> int {
    pieces_on_files(board, BOARD_SIZE as int)
}

/// A board has one successor under a move: two boards that both are `board`
/// after the same move are the same board.
pub proof fn lemma_moved_board_is_unique(
    first: Board,
    second: Board,
    board: Board,
    initial_i: int,
    initial_j: int,
    end_i: int,
    end_j: int,
)
    requires
        is_moved(first, board, initial_i, initial_j, end_i, end_j),
        is_moved(second, board, initial_i, initial_j, end_i, end_j),
    ensures
        first == second,
{
    assert forall|i: int| 0 <= i < BOARD_SIZE implies first[i] == second[i] by {
        assert forall|j: int| 0 <= j < BOARD_SIZE implies first[i][j] == second[i][j] by {
            assert(on_board(i, j));
        }
        assert(first[i] =~= second[i]);
    }
    assert(first =~= second);
}

/// A move between two different squares takes one piece from the one and
/// gives it to the other: the end square has one piece more, the initial
/// square one less, and together they hold as many as before.
pub proof fn lemma_move_shifts_one_piece(
    next: Board,
    board: Board,
    initial_i: int,
    initial_j: int,
    end_i: int,
    end_j: int,
)
    requires
        on_board(initial_i, initial_j),
        on_board(end_i, end_j),
        initial_i != end_i || initial_j != end_j,
        move_obstacle(board, initial_i, initial_j, end_i, end_j) is None,
        is_moved(next, board, initial_i, initial_j, end_i, end_j),
    ensures
        next[end_i][end_j]@ == board[end_i][end_j]@.push(board[initial_i][initial_j]@.last()),
        next[initial_i][initial_j]@ == board[initial_i][initial_j]@.drop_last(),
        next[end_i][end_j]@.len() == board[end_i][end_j]@.len() + 1,
        next[initial_i][initial_j]@.len() == board[initial_i][initial_j]@.len() - 1,
{
    Tower::lemma_view_of_from_pieces(
        board[end_i][end_j]@.push(board[initial_i][initial_j]@.last()),
    );
    Tower::lemma_view_of_from_pieces(board[initial_i][initial_j]@.drop_last());
}

/// What a move does to the validity of towers. Away from the end square a
/// tower that was `distinct` stays so. The tower on the end square is
/// `distinct` afterwards where it was before and held no piece that is the
/// same as the one that arrives, and there only.
pub proof fn lemma_move_and_distinct(
    next: Board,
    board: Board,
    initial_i: int,
    initial_j: int,
    end_i: int,
    end_j: int,
)
    requires
        on_board(initial_i, initial_j),
        on_board(end_i, end_j),
        move_obstacle(board, initial_i, initial_j, end_i, end_j) is None,
        is_moved(next, board, initial_i, initial_j, end_i, end_j),
    ensures
        forall|i: int, j: int|
            on_board(i, j) && !(i == end_i && j == end_j) && board[i][j].distinct()
                ==> (#[trigger] next[i][j]).distinct(),
        next[end_i][end_j].distinct() == (board[end_i][end_j].distinct()
            && !board[end_i][end_j].holds(board[initial_i][initial_j]@.last())),
{
    board[end_i][end_j].lemma_drop_and_distinct(board[initial_i][initial_j]@.last());
    if board[initial_i][initial_j].distinct() {
        board[initial_i][initial_j].lemma_lift_keeps_distinct();
    }
}

/// The change that a square sees when `first` changes by `first_change` and
/// `second` by `second_change`.
spec fn change_at(
    place: int,
    first: int,
    first_change: int,
    second: int,
    second_change: int,
) -> int {
    (if place == first {
        first_change
    } else {
        0
    }) + (if place == second {
        second_change
    } else {
        0
    })
}

/// Two files that differ in the heights of at most two towers differ in
/// their number of pieces by the changes that lie within the ranks counted.
proof fn lemma_file_count_change(
    before: [Tower; BOARD_SIZE],
    after: [Tower; BOARD_SIZE],
    ranks: int,
    first: int,
    first_change: int,
    second: int,
    second_change: int,
)
    requires
        0 <= ranks <= BOARD_SIZE,
        first != second,
        forall|j: int|
            0 <= j < BOARD_SIZE ==> (#[trigger] after[j])@.len() == before[j]@.len() + change_at(
                j,
                first,
                first_change,
                second,
                second_change,
            ),
    ensures
        pieces_on_file(after, ranks) == pieces_on_file(before, ranks) + (if 0 <= first < ranks {
            first_change
        } else {
            0
        }) + (if 0 <= second < ranks {
            second_change
        } else {
            0
        }),
    decreases ranks,
{
    if ranks > 0 {
        lemma_file_count_change(
            before,
            after,
            ranks - 1,
            first,
            first_change,
            second,
            second_change,
        );
        assert(after[ranks - 1]@.len() == before[ranks - 1]@.len() + change_at(
            ranks - 1,
            first,
            first_change,
            second,
            second_change,
        ));
    }
}

/// Two boards that differ in the heights of at most two towers differ in
/// their number of pieces by the changes that lie within the files counted.
proof fn lemma_board_count_change(
    before: Board,
    after: Board,
    files: int,
    first: (int, int),
    first_change: int,
    second: (int, int),
    second_change: int,
)
    requires
        0 <= files <= BOARD_SIZE,
        on_board(first.0, first.1),
        on_board(second.0, second.1),
        first != second,
        forall|i: int, j: int|
            on_board(i, j) ==> (#[trigger] after[i][j])@.len() == before[i][j]@.len() + (if (i, j)
                == first {
                first_change
            } else {
                0
            }) + (if (i, j) == second {
                second_change
            } else {
                0
            }),
    ensures
        pieces_on_files(after, files) == pieces_on_files(before, files) + (if first.0 < files {
            first_change
        } else {
            0
        }) + (if second.0 < files {
            second_change
        } else {
            0
        }),
    decreases files,
{
    if files > 0 {
        lemma_board_count_change(
            before,
            after,
            files - 1,
            first,
            first_change,
            second,
            second_change,
        );
        let i = files - 1;
        let in_first = if first.0 == i {
            first.1
        } else {
            -1
        };
        let in_second = if second.0 == i {
            second.1
        } else {
            -2
        };
        assert forall|j: int| 0 <= j < BOARD_SIZE implies (#[trigger] after[i][j])@.len()
            == before[i][j]@.len() + change_at(
            j,
            in_first,
            first_change,
            in_second,
            second_change,
        ) by {
            assert(on_board(i, j));
        }
        lemma_file_count_change(
            before[i],
            after[i],
            BOARD_SIZE as int,
            in_first,
            first_change,
            in_second,
            second_change,
        );
    }
}

/// A move between two different squares neither adds a piece to the board
/// nor takes one away. A move from a square onto itself adds one: the top
/// piece of that square is there twice afterwards.
pub proof fn lemma_move_and_piece_count(
    next: Board,
    board: Board,
    initial_i: int,
    initial_j: int,
    end_i: int,
    end_j: int,
)
    requires
        on_board(initial_i, initial_j),
        on_board(end_i, end_j),
        move_obstacle(board, initial_i, initial_j, end_i, end_j) is None,
        is_moved(next, board, initial_i, initial_j, end_i, end_j),
    ensures
        pieces_on_board(next) == pieces_on_board(board) + if initial_i == end_i && initial_j
            == end_j {
            1int
        } else {
            0int
        },
{
    let piece = board[initial_i][initial_j]@.last();
    Tower::lemma_view_of_from_pieces(board[end_i][end_j]@.push(piece));
    Tower::lemma_view_of_from_pieces(board[initial_i][initial_j]@.drop_last());
    let start = (initial_i, initial_j);
    let end = (end_i, end_j);
    if start == end {
        // Any other square serves as the second place, which does not change.
        let other = if end_i == 0 {
            (1int, end_j)
        } else {
            (0int, end_j)
        };
        lemma_board_count_change(board, next, BOARD_SIZE as int, end, 1, other, 0);
    } else {
        lemma_board_count_change(board, next, BOARD_SIZE as int, end, 1, start, -1);
    }
}

/// A move map lists, as (file, rank) steps relative to a piece, the squares
/// to which the piece may move. The Bow in the middle of a tower may move
/// one square forwards or backwards, or two squares up and two to either
/// side; its move map is `[(0, 1), (0, -1), (-2, 2), (2, 2)]`.
/// Move maps are written for the pieces of Black.
pub type MoveMap = Vec<(i32, i32)>;

/// Some pieces may also move in a special way, like a Rook or a Bishop.
/// A piece with the `Forward` variant moves like a Rook, but only towards
/// the enemy player: Black towards higher ranks, White towards lower ones.
#[derive(Clone, Copy, Debug, PartialEq, Eq, Structural)]
pub enum MoveSpecial {
    Normal,
    Rook,
    Bishop,
    Forward(Color),
}

/// A tier is the place of a piece in its tower: tier one is the bottom,
/// tier two the middle and tier three the top. Pieces of one type move in
/// different ways on different tiers.
#[derive(Clone, Copy, Debug, PartialEq, Eq, Structural)]
pub enum Tier {
    One,
    Two,
    Three,
}

/// The distance between two numbers.
pub open spec fn distance(x: int, y: int) -> int {
    if x > y {
        x - y
    } else {
        y - x
    }
}

/// Whether the special move reaches (end_i, end_j) from (start_i, start_j)
/// on a board without bounds and without other pieces.
/// `Normal` reaches nothing. `Rook` reaches the squares of the same file or
/// rank, `Bishop` those as many files away as ranks; both reach the start
/// square itself. `Forward` reaches the squares of the same file that lie
/// further from the home edge of its color.
pub open spec fn reaches_by_special(
    move_special: MoveSpecial,
    start_i: int,
    start_j: int,
    end_i: int,
    end_j: int,
) -> bool {
    match move_special {
        MoveSpecial::Normal => false,
        MoveSpecial::Rook => start_i == end_i || start_j == end_j,
        MoveSpecial::Bishop => distance(start_i, end_i) == distance(start_j, end_j),
        MoveSpecial::Forward(Color::Black) => start_i == end_i && start_j < end_j,
        MoveSpecial::Forward(Color::White) => start_i == end_i && start_j > end_j,
    }
}

/// Returns true if the end coordinates can be reached from the start
/// coordinates by the special move. Always false for `MoveSpecial::Normal`.
pub fn check_move_special(
    move_special: MoveSpecial,
    start_i: usize,
    start_j: usize,
    end_i: usize,
    end_j: usize,
) -> (reachable: bool)
    ensures
        reachable == reaches_by_special(
            move_special,
            start_i as int,
            start_j as int,
            end_i as int,
            end_j as int,
        ),
{
    match move_special {
        MoveSpecial::Normal => false,
        MoveSpecial::Rook => start_i == end_i || start_j == end_j,
        MoveSpecial::Bishop => abs_diff(start_i, end_i) == abs_diff(start_j, end_j),
        MoveSpecial::Forward(color) => {
            match color {
                Color::Black => start_i == end_i && start_j < end_j,
                Color::White => start_i == end_i && start_j > end_j,
            }
        },
    }
}

/// The distance between two coordinates.
pub fn abs_diff(x: usize, y: usize) -> (difference: usize)
    ensures
        difference == distance(x as int, y as int),
{
    if x > y {
        x - y
    } else {
        y - x
    }
}

/// Why a step from a coordinate leads to no coordinate.
#[derive(Clone, Copy, Debug, PartialEq, Eq, Structural)]
pub enum StepError {
    /// The step leads below zero.
    Negative,
    /// The step leads beyond the largest `usize`.
    TooLarge,
}

/// Adds a step to a coordinate. Gives the sum where it is a coordinate
/// again, and says on which side it fell off where it is not.
pub fn add(x: usize, y: i32) -> (result: Result<usize, StepError>)
    ensures
        x + y < 0 <==> result == Err::<usize, StepError>(StepError::Negative),
        x + y > usize::MAX <==> result == Err::<usize, StepError>(StepError::TooLarge),
        0 <= x + y <= usize::MAX <==> result == Ok::<usize, StepError>((x + y) as usize),
{
    if y >= 0 {
        match x.checked_add(y as usize) {
            Some(sum) => Ok(sum),
            None => Err(StepError::TooLarge),
        }
    } else {
        let back: usize = (-(y as i64)) as usize;
        if back <= x {
            Ok(x - back)
        } else {
            Err(StepError::Negative)
        }
    }
}

/// The step leads from (start_i, start_j) exactly to (end_i, end_j).
pub open spec fn lands_on(
    step: (i32, i32),
    start_i: int,
    start_j: int,
    end_i: int,
    end_j: int,
) -> bool {
    start_i + step.0 == end_i && start_j + step.1 == end_j
}

/// Whether some step of the move map leads from (start_i, start_j) exactly
/// to (end_i, end_j). The sums are those of the integers: a step that would
/// leave the range of the coordinates leads nowhere.
pub open spec fn reaches_by_map(
    move_map: Seq<(i32, i32)>,
    start_i: int,
    start_j: int,
    end_i: int,
    end_j: int,
) -> bool {
    exists|k: int|
        0 <= k < move_map.len() && lands_on(#[trigger] move_map[k], start_i, start_j, end_i, end_j)
}

/// Returns true if the end coordinates can be reached by at least one move
/// map entry from the starting coordinates. Other pieces and the edges of
/// the board are not looked at.
pub fn check_move_map(
    move_map: &MoveMap,
    start_i: usize,
    start_j: usize,
    end_i: usize,
    end_j: usize,
) -> (reachable: bool)
    ensures
        reachable == reaches_by_map(
            move_map@,
            start_i as int,
            start_j as int,
            end_i as int,
            end_j as int,
        ),
{
    let mut k: usize = 0;
    while k < move_map.len()
        invariant
            k <= move_map@.len(),
            forall|m: int|
                0 <= m < k ==> !lands_on(
                    #[trigger] move_map@[m],
                    start_i as int,
                    start_j as int,
                    end_i as int,
                    end_j as int,
                ),
        decreases move_map@.len() - k,
    {
        let (delta_i, delta_j) = move_map[k];
        let result_i = self::add(start_i, delta_i);
        let result_j = self::add(start_j, delta_j);
        if let (Ok(i), Ok(j)) = (result_i, result_j) {
            if i == end_i && j == end_j {
                return true;
            }
        }
        k += 1;
    }
    false
}

/// The move map as the other player sees it: every step with its rank part
/// negated. This is for move maps that `can_flip`.
pub open spec fn flipped(move_map: Seq<(i32, i32)>) -> Seq<(i32, i32)> {
    Seq::new(move_map.len(), |k: int| (move_map[k].0, (-move_map[k].1) as i32))
}

/// Every rank step of the move map can be negated.
pub open spec fn can_flip(move_map: Seq<(i32, i32)>) -> bool {
    forall|k: int| 0 <= k < move_map.len() ==> (#[trigger] move_map[k]).1 > i32::MIN
}

/// Flips a move map of Black into one for White, and back.
pub fn vertical_flip(move_map: &MoveMap) -> (flipped_map: MoveMap)
    requires
        can_flip(move_map@),
    ensures
        flipped_map@ == flipped(move_map@),
        flipped_map@.len() == move_map@.len(),
        forall|k: int|
            0 <= k < move_map@.len() ==> (#[trigger] flipped_map@[k]).0 == move_map@[k].0
                && flipped_map@[k].1 == -move_map@[k].1,
{
    let mut flipped_map: MoveMap = Vec::new();
    let mut k: usize = 0;
    while k < move_map.len()
        invariant
            k <= move_map@.len(),
            can_flip(move_map@),
            flipped_map@.len() == k,
            forall|m: int|
                0 <= m < k ==> (#[trigger] flipped_map@[m]).0 == move_map@[m].0
                    && flipped_map@[m].1 == -move_map@[m].1,
        decreases move_map@.len() - k,
    {
        let (delta_i, delta_j) = move_map[k];
        flipped_map.push((delta_i, -delta_j));
        k += 1;
    }
    flipped_map
}

/// The special move of a piece type on a tier. Only the bottom tier has
/// special moves: the Hidden Dragon and the Dragon King move as a Rook, the
/// Prodigy and the Phoenix as a Bishop, and the Lance forward for its color.
pub open spec fn special_of(piece_type: PieceType, color: Color, tier: Tier) -> MoveSpecial {
    if tier != Tier::One {
        MoveSpecial::Normal
    } else if piece_type == PieceType::HiddenDragon || piece_type == PieceType::DragonKing {
        MoveSpecial::Rook
    } else if piece_type == PieceType::Prodigy || piece_type == PieceType::Phoenix {
        MoveSpecial::Bishop
    } else if piece_type == PieceType::Lance {
        MoveSpecial::Forward(color)
    } else {
        MoveSpecial::Normal
    }
}

/// Returns the special move that a piece type has on a tier. The color
/// matters for the Lance alone, whose direction depends on it.
pub fn get_move_special(piece_type: PieceType, color: Color, tier: Tier) -> (special: MoveSpecial)
    ensures
        special == special_of(piece_type, color, tier),
{
    match tier {
        Tier::One => {
            match piece_type {
                PieceType::HiddenDragon | PieceType::DragonKing => MoveSpecial::Rook,
                PieceType::Prodigy | PieceType::Phoenix => MoveSpecial::Bishop,
                PieceType::Lance => MoveSpecial::Forward(color),
                _ => MoveSpecial::Normal,
            }
        },
        _ => MoveSpecial::Normal,
    }
}

/// Walking back what a special move reaches: a Rook and a Bishop reach the
/// start from the end too, and what is forward for one color is backward
/// for the other.
pub proof fn lemma_special_reversed(
    move_special: MoveSpecial,
    start_i: int,
    start_j: int,
    end_i: int,
    end_j: int,
)
    ensures
        move_special is Rook || move_special is Bishop ==> reaches_by_special(
            move_special,
            start_i,
            start_j,
            end_i,
            end_j,
        ) == reaches_by_special(move_special, end_i, end_j, start_i, start_j),
        reaches_by_special(MoveSpecial::Forward(Color::Black), start_i, start_j, end_i, end_j)
            == reaches_by_special(
            MoveSpecial::Forward(Color::White),
            end_i,
            end_j,
            start_i,
            start_j,
        ),
{
}

/// A Rook and a Bishop reach the square on which they stand. A piece that
/// moves forward does not, and whatever it reaches a Rook reaches too.
pub proof fn lemma_special_and_start_square(
    color: Color,
    start_i: int,
    start_j: int,
    end_i: int,
    end_j: int,
)
    ensures
        reaches_by_special(MoveSpecial::Rook, start_i, start_j, start_i, start_j),
        reaches_by_special(MoveSpecial::Bishop, start_i, start_j, start_i, start_j),
        !reaches_by_special(MoveSpecial::Forward(color), start_i, start_j, start_i, start_j),
        reaches_by_special(MoveSpecial::Forward(color), start_i, start_j, end_i, end_j)
            ==> reaches_by_special(MoveSpecial::Rook, start_i, start_j, end_i, end_j),
{
}

/// A move map that is made of two reaches what either part reaches.
pub proof fn lemma_reaches_by_either_part(
    first: Seq<(i32, i32)>,
    second: Seq<(i32, i32)>,
    start_i: int,
    start_j: int,
    end_i: int,
    end_j: int,
)
    ensures
        reaches_by_map(first + second, start_i, start_j, end_i, end_j) == (reaches_by_map(
            first,
            start_i,
            start_j,
            end_i,
            end_j,
        ) || reaches_by_map(second, start_i, start_j, end_i, end_j)),
{
    let whole = first + second;
    if reaches_by_map(first, start_i, start_j, end_i, end_j) {
        let k = choose|k: int|
            0 <= k < first.len() && lands_on(#[trigger] first[k], start_i, start_j, end_i, end_j);
        assert(whole[k] == first[k]);
    }
    if reaches_by_map(second, start_i, start_j, end_i, end_j) {
        let k = choose|k: int|
            0 <= k < second.len() && lands_on(
                #[trigger] second[k],
                start_i,
                start_j,
                end_i,
                end_j,
            );
        assert(whole[first.len() + k] == second[k]);
    }
    if reaches_by_map(whole, start_i, start_j, end_i, end_j) {
        let k = choose|k: int|
            0 <= k < whole.len() && lands_on(#[trigger] whole[k], start_i, start_j, end_i, end_j);
        if k < first.len() {
            assert(whole[k] == first[k]);
        } else {
            assert(whole[k] == second[k - first.len()]);
        }
    }
}

/// Flipping a move map twice gives the move map back.
pub proof fn lemma_flip_twice(move_map: Seq<(i32, i32)>)
    requires
        can_flip(move_map),
    ensures
        can_flip(flipped(move_map)),
        flipped(flipped(move_map)) == move_map,
{
    assert(flipped(flipped(move_map)) =~= move_map);
}

/// A flipped move map reaches the mirror images, across the rank of the
/// start square, of the squares that the move map reaches.
pub proof fn lemma_flip_mirrors(
    move_map: Seq<(i32, i32)>,
    start_i: int,
    start_j: int,
    end_i: int,
    end_j: int,
)
    requires
        can_flip(move_map),
    ensures
        reaches_by_map(flipped(move_map), start_i, start_j, end_i, end_j) == reaches_by_map(
            move_map,
            start_i,
            start_j,
            end_i,
            2 * start_j - end_j,
        ),
{
    let mirror = flipped(move_map);
    let mirror_j = 2 * start_j - end_j;
    if reaches_by_map(mirror, start_i, start_j, end_i, end_j) {
        let k = choose|k: int|
            0 <= k < mirror.len() && lands_on(#[trigger] mirror[k], start_i, start_j, end_i, end_j);
        assert(lands_on(move_map[k], start_i, start_j, end_i, mirror_j));
    }
    if reaches_by_map(move_map, start_i, start_j, end_i, mirror_j) {
        let k = choose|k: int|
            0 <= k < move_map.len() && lands_on(
                #[trigger] move_map[k],
                start_i,
                start_j,
                end_i,
                mirror_j,
            );
        assert(lands_on(mirror[k], start_i, start_j, end_i, end_j));
    }
}

} // verus!
