use vstd::prelude::*;
use vstd::std_specs::cmp::PartialEqSpecImpl;

verus! {

/// The color of a piece determines which player owns the piece.
/// Black always moves first.
#[derive(Clone, Copy, Debug, PartialEq, Eq, Structural)]
pub enum Color {
    Black,
    White,
}

/// A piece has a front and a back side; the side that shows decides which
/// piece type it acts as.
#[derive(Clone, Copy, Debug, PartialEq, Eq, Structural)]
pub enum SideType {
    Front,
    Back,
}

/// The pairs of front and back piece types that exist as physical pieces.
#[derive(Clone, Copy, Debug, PartialEq, Eq, Structural)]
pub enum PieceCombination {
    Commander,
    CaptainPistol,
    SamuraiPike,
    SpyCladestinite,
    CatapultLance,
    FortressLance,
    HiddenDragonKing,
    ProdigyPhoenix,
    BowArrow,
    PawnBronze,
    PawnSilver,
    PawnGold,
}

/// All the individual piece types.
#[derive(Clone, Copy, Debug, PartialEq, Eq, Structural)]
pub enum PieceType {
    // Front pieces
    /// The Commander has no back piece: both of its sides are the Commander.
    Commander,
    Captain,
    Samurai,
    Spy,
    Catapult,
    Fortress,
    HiddenDragon,
    Prodigy,
    Bow,
    Pawn,
    // Back pieces
    Pistol,
    Pike,
    Clandestinite,
    Lance,
    DragonKing,
    Phoenix,
    Arrow,
    Bronze,
    Silver,
    Gold,
}

impl PieceType {
    /// The side on which this piece type is printed: the ten types from
    /// `Commander` to `Pawn` are fronts, the ten from `Pistol` to `Gold` backs.
    pub open spec fn side(self) -> SideType {
        match self {
            PieceType::Commander
            | PieceType::Captain
            | PieceType::Samurai
            | PieceType::Spy
            | PieceType::Catapult
            | PieceType::Fortress
            | PieceType::HiddenDragon
            | PieceType::Prodigy
            | PieceType::Bow
            | PieceType::Pawn => SideType::Front,
            _ => SideType::Back,
        }
    }
}

impl PieceCombination {
    /// The piece type on the front of this combination.
    pub open spec fn front(self) -> PieceType {
        match self {
            PieceCombination::Commander => PieceType::Commander,
            PieceCombination::CaptainPistol => PieceType::Captain,
            PieceCombination::SamuraiPike => PieceType::Samurai,
            PieceCombination::SpyCladestinite => PieceType::Spy,
            PieceCombination::CatapultLance => PieceType::Catapult,
            PieceCombination::FortressLance => PieceType::Fortress,
            PieceCombination::HiddenDragonKing => PieceType::HiddenDragon,
            PieceCombination::ProdigyPhoenix => PieceType::Prodigy,
            PieceCombination::BowArrow => PieceType::Bow,
            PieceCombination::PawnBronze => PieceType::Pawn,
            PieceCombination::PawnSilver => PieceType::Pawn,
            PieceCombination::PawnGold => PieceType::Pawn,
        }
    }

    /// The piece type on the back of this combination. For the Commander it
    /// is the Commander again.
    pub open spec fn back(self) -> PieceType {
        match self {
            PieceCombination::Commander => PieceType::Commander,
            PieceCombination::CaptainPistol => PieceType::Pistol,
            PieceCombination::SamuraiPike => PieceType::Pike,
            PieceCombination::SpyCladestinite => PieceType::Clandestinite,
            PieceCombination::CatapultLance => PieceType::Lance,
            PieceCombination::FortressLance => PieceType::Lance,
            PieceCombination::HiddenDragonKing => PieceType::DragonKing,
            PieceCombination::ProdigyPhoenix => PieceType::Phoenix,
            PieceCombination::BowArrow => PieceType::Arrow,
            PieceCombination::PawnBronze => PieceType::Bronze,
            PieceCombination::PawnSilver => PieceType::Silver,
            PieceCombination::PawnGold => PieceType::Gold,
        }
    }
}

/// Returns the side on which a piece type is printed.
/// For example, `get_side_type(PieceType::Spy)` is `SideType::Front`.
pub fn get_side_type(piece_type: PieceType) -> (side: SideType)
    ensures
        side == piece_type.side(),
{
    match piece_type {
        PieceType::Commander => SideType::Front,
        PieceType::Captain => SideType::Front,
        PieceType::Samurai => SideType::Front,
        PieceType::Spy => SideType::Front,
        PieceType::Catapult => SideType::Front,
        PieceType::Fortress => SideType::Front,
        PieceType::HiddenDragon => SideType::Front,
        PieceType::Prodigy => SideType::Front,
        PieceType::Bow => SideType::Front,
        PieceType::Pawn => SideType::Front,
        PieceType::Pistol => SideType::Back,
        PieceType::Pike => SideType::Back,
        PieceType::Clandestinite => SideType::Back,
        PieceType::Lance => SideType::Back,
        PieceType::DragonKing => SideType::Back,
        PieceType::Phoenix => SideType::Back,
        PieceType::Arrow => SideType::Back,
        PieceType::Bronze => SideType::Back,
        PieceType::Silver => SideType::Back,
        PieceType::Gold => SideType::Back,
    }
}

/// A piece has two sides, called front and back. Pieces start out showing
/// their front and flip to the back when they are captured. The Commander
/// alone carries the same type on both sides.
#[derive(Clone, Copy, Debug)]
pub struct Piece {
    /// The side that currently shows.
    pub current_side: SideType,
    pub front_side: PieceType,
    pub back_side: PieceType,
    pub color: Color,
}

impl Piece {
    /// The piece type that this piece acts as: the type on the side that
    /// shows.
    pub open spec fn identity(self) -> PieceType {
        match self.current_side {
            SideType::Front => self.front_side,
            SideType::Back => self.back_side,
        }
    }

    /// Two pieces cannot be told apart on the board when they have the same
    /// owner and act as the same piece type, whatever their hidden sides are.
    pub open spec fn same_as(self, other: Piece) -> bool {
        self.color == other.color && self.identity() == other.identity()
    }

    /// Makes the piece of the given combination for the given owner, showing
    /// its front.
    pub fn new(piece_combination: PieceCombination, color: Color) -> (piece: Piece)
        ensures
            piece == (Piece {
                current_side: SideType::Front,
                front_side: piece_combination.front(),
                back_side: piece_combination.back(),
                color: color,
            }),
            piece.identity() == piece_combination.front(),
            piece.front_side.side() == SideType::Front,
            piece_combination != PieceCombination::Commander ==> piece.back_side.side()
                == SideType::Back,
    {
        let (front_side, back_side) = match piece_combination {
            PieceCombination::Commander => (PieceType::Commander, PieceType::Commander),
            PieceCombination::CaptainPistol => (PieceType::Captain, PieceType::Pistol),
            PieceCombination::SamuraiPike => (PieceType::Samurai, PieceType::Pike),
            PieceCombination::SpyCladestinite => (PieceType::Spy, PieceType::Clandestinite),
            PieceCombination::CatapultLance => (PieceType::Catapult, PieceType::Lance),
            PieceCombination::FortressLance => (PieceType::Fortress, PieceType::Lance),
            PieceCombination::HiddenDragonKing => (PieceType::HiddenDragon, PieceType::DragonKing),
            PieceCombination::ProdigyPhoenix => (PieceType::Prodigy, PieceType::Phoenix),
            PieceCombination::BowArrow => (PieceType::Bow, PieceType::Arrow),
            PieceCombination::PawnBronze => (PieceType::Pawn, PieceType::Bronze),
            PieceCombination::PawnSilver => (PieceType::Pawn, PieceType::Silver),
            PieceCombination::PawnGold => (PieceType::Pawn, PieceType::Gold),
        };
        Piece { current_side: SideType::Front, front_side, back_side, color }
    }

    /// The piece type that this piece currently acts as.
    pub fn current_type(&self) -> (piece_type: PieceType)
        ensures
            piece_type == self.identity(),
    {
        match self.current_side {
            SideType::Front => self.front_side,
            SideType::Back => self.back_side,
        }
    }
}

impl Piece {
    /// Being the same piece on the board is an equivalence: every piece is
    /// the same as itself, and pieces that are the same as one piece are the
    /// same as each other.
    pub proof fn lemma_same_as_is_equivalence(self, second: Piece, third: Piece)
        ensures
            self.same_as(self),
            self.same_as(second) == second.same_as(self),
            self.same_as(second) && second.same_as(third) ==> self.same_as(third),
    {
    }
}

impl PieceCombination {
    /// Every combination has a front type on its front and, but for the
    /// Commander, a back type on its back.
    pub proof fn lemma_sides_match(self)
        ensures
            self.front().side() == SideType::Front,
            self.back().side() == if self == PieceCombination::Commander {
                SideType::Front
            } else {
                SideType::Back
            },
    {
    }

    /// Every piece type is on a side of some combination: a front type on
    /// the front, a back type on the back.
    pub proof fn lemma_every_type_is_on_a_piece(piece_type: PieceType)
        ensures
            exists|combination: PieceCombination|
                if piece_type.side() == SideType::Front {
                    #[trigger] combination.front() == piece_type
                } else {
                    combination.back() == piece_type
                },
    {
        let combination = match piece_type {
            PieceType::Commander => PieceCombination::Commander,
            PieceType::Captain | PieceType::Pistol => PieceCombination::CaptainPistol,
            PieceType::Samurai | PieceType::Pike => PieceCombination::SamuraiPike,
            PieceType::Spy | PieceType::Clandestinite => PieceCombination::SpyCladestinite,
            PieceType::Catapult | PieceType::Lance => PieceCombination::CatapultLance,
            PieceType::Fortress => PieceCombination::FortressLance,
            PieceType::HiddenDragon | PieceType::DragonKing => PieceCombination::HiddenDragonKing,
            PieceType::Prodigy | PieceType::Phoenix => PieceCombination::ProdigyPhoenix,
            PieceType::Bow | PieceType::Arrow => PieceCombination::BowArrow,
            PieceType::Pawn | PieceType::Bronze => PieceCombination::PawnBronze,
            PieceType::Silver => PieceCombination::PawnSilver,
            PieceType::Gold => PieceCombination::PawnGold,
        };
        assert(if piece_type.side() == SideType::Front {
            combination.front() == piece_type
        } else {
            combination.back() == piece_type
        });
    }
}

impl PartialEq for Piece {
    /// Pieces are equal when they have the same owner and act as the same
    /// piece type. This is coarser than equality of all four fields.
    fn eq(&self, other: &Piece) -> (same: bool) {
        let same_player = self.color == other.color;
        let same_type = self.current_type() == other.current_type();
        same_player && same_type
    }
}

impl PartialEqSpecImpl for Piece {
    open spec fn obeys_eq_spec() -> bool {
        true
    }

    open spec fn eq_spec(&self, other: &Piece) -> bool {
        self.same_as(*other)
    }
}

impl Eq for Piece {

}

/// Why a piece could not be taken off a tower or put onto one.
#[derive(Clone, Copy, Debug, PartialEq, Eq, Structural)]
pub enum TowerError {
    /// There is no piece to lift: the tower is empty.
    EmptyTower,
    /// There is no room for another piece: the tower holds three.
    TowerFull,
}

/// The slot in which the top piece of a tower sits.
#[derive(Clone, Copy, Debug, PartialEq, Eq, Structural)]
pub enum TowerHeight {
    Empty,
    Bottom,
    Middle,
    Top,
}

impl TowerHeight {
    /// The slot of the top piece in a tower of `count` pieces.
    pub open spec fn of_count(count: nat) -> TowerHeight {
        if count == 0 {
            TowerHeight::Empty
        } else if count == 1 {
            TowerHeight::Bottom
        } else if count == 2 {
            TowerHeight::Middle
        } else {
            TowerHeight::Top
        }
    }
}

/// A tower consists of zero to three pieces. Towers may contain pieces from
/// both players. Only the top piece on a tower can move.
#[derive(Clone, Copy, Debug)]
pub enum Tower {
    Empty,
    Single(Piece),
    Double(Piece, Piece),
    Triple(Piece, Piece, Piece),
}

impl View for Tower {
    type V = Seq<Piece>;

    /// The pieces of the tower, bottom first.
    open spec fn view(&self) -> Seq<Piece> {
        match *self {
            Tower::Empty => seq![],
            Tower::Single(bottom) => seq![bottom],
            Tower::Double(bottom, middle) => seq![bottom, middle],
            Tower::Triple(bottom, middle, top) => seq![bottom, middle, top],
        }
    }
}

impl Tower {
    /// The most pieces that a tower holds.
    pub open spec fn capacity() -> nat {
        3
    }

    /// The tower that holds the given pieces, bottom first. Pieces beyond the
    /// third are left out.
    pub open spec fn from_pieces(pieces: Seq<Piece>) -> Tower {
        if pieces.len() == 0 {
            Tower::Empty
        } else if pieces.len() == 1 {
            Tower::Single(pieces[0])
        } else if pieces.len() == 2 {
            Tower::Double(pieces[0], pieces[1])
        } else {
            Tower::Triple(pieces[0], pieces[1], pieces[2])
        }
    }

    /// No two pieces of the tower have the same owner and act as the same
    /// piece type.
    pub open spec fn distinct(self) -> bool {
        forall|i: int, j: int|
            0 <= i < j < self@.len() ==> !(#[trigger] self@[i]).same_as(#[trigger] self@[j])
    }

    /// Some piece of the tower has the owner of `piece` and acts as the same
    /// piece type.
    pub open spec fn holds(self, piece: Piece) -> bool {
        exists|i: int| 0 <= i < self@.len() && (#[trigger] self@[i]).same_as(piece)
    }

    /// What lifting the top piece gives: the tower without its last piece,
    /// and that piece.
    pub open spec fn lifted(self) -> Result<(Tower, Piece), TowerError> {
        if self@.len() == 0 {
            Err(TowerError::EmptyTower)
        } else {
            Ok((Tower::from_pieces(self@.drop_last()), self@.last()))
        }
    }

    /// What dropping `piece` onto the tower gives: the tower with `piece`
    /// after its last piece.
    pub open spec fn dropped(self, piece: Piece) -> Result<Tower, TowerError> {
        if self@.len() >= Tower::capacity() {
            Err(TowerError::TowerFull)
        } else {
            Ok(Tower::from_pieces(self@.push(piece)))
        }
    }
}

impl Tower {
    /// Returns the topmost piece and a tower that has its top piece removed.
    /// Fails on the empty tower, and on no other.
    pub fn lift_piece(&self) -> (result: Result<(Tower, Piece), TowerError>)
        ensures
            result == self.lifted(),
            *self is Empty <==> result == Err::<(Tower, Piece), TowerError>(TowerError::EmptyTower),
            result matches Ok((rest, top)) ==> {
                &&& rest@ == self@.drop_last()
                &&& top == self@.last()
                &&& self.distinct() ==> rest.distinct()
            },
    {
        match *self {
            Tower::Empty => Err(TowerError::EmptyTower),
            Tower::Single(bottom) => Ok((Tower::Empty, bottom)),
            Tower::Double(bottom, middle) => Ok((Tower::Single(bottom), middle)),
            Tower::Triple(bottom, middle, top) => Ok((Tower::Double(bottom, middle), top)),
        }
    }

    /// Returns a tower that has `piece` added on top of this tower.
    /// Fails on a tower of three pieces, and on no other. A piece that the
    /// tower holds already is taken all the same: the new tower is then not
    /// `distinct`, which is for `is_valid` to tell.
    pub fn drop_piece(&self, piece: Piece) -> (result: Result<Tower, TowerError>)
        ensures
            result == self.dropped(piece),
            *self is Triple <==> result == Err::<Tower, TowerError>(TowerError::TowerFull),
            result matches Ok(tower) ==> {
                &&& tower@ == self@.push(piece)
                &&& tower.distinct() == (self.distinct() && !self.holds(piece))
            },
    {
        proof {
            if self.dropped(piece) is Ok {
                self.lemma_drop_and_distinct(piece);
            }
        }
        match *self {
            Tower::Empty => Ok(Tower::Single(piece)),
            Tower::Single(bottom) => Ok(Tower::Double(bottom, piece)),
            Tower::Double(bottom, middle) => Ok(Tower::Triple(bottom, middle, piece)),
            Tower::Triple(_, _, _) => Err(TowerError::TowerFull),
        }
    }

    /// A tower is valid as long as no two pieces in it have the same owner
    /// and act as the same piece type: a player's Pawn on that player's Pawn
    /// is not allowed, a player's Pawn on the opponent's Pawn is.
    pub fn is_valid(&self) -> (valid: bool)
        ensures
            valid == self.distinct(),
            valid == match *self {
                Tower::Empty => true,
                Tower::Single(_) => true,
                Tower::Double(bottom, middle) => !bottom.same_as(middle),
                Tower::Triple(bottom, middle, top) => !bottom.same_as(middle) && !bottom.same_as(
                    top,
                ) && !middle.same_as(top),
            },
    {
        proof {
            self.lemma_distinct_by_shape();
        }
        match *self {
            Tower::Empty => true,
            Tower::Single(_) => true,
            Tower::Double(bottom, middle) => bottom != middle,
            Tower::Triple(bottom, middle, top) => !(bottom == middle || bottom == top || middle
                == top),
        }
    }

    /// The slot of the topmost piece; `Empty` for the empty tower only.
    pub fn height(&self) -> (height: TowerHeight)
        ensures
            height == TowerHeight::of_count(self@.len()),
    {
        match *self {
            Tower::Empty => TowerHeight::Empty,
            Tower::Single(_) => TowerHeight::Bottom,
            Tower::Double(_, _) => TowerHeight::Middle,
            Tower::Triple(_, _, _) => TowerHeight::Top,
        }
    }
}

impl Tower {
    /// Which towers are `distinct`, shape by shape: every tower of at most
    /// one piece; a tower of two whose pieces differ; a tower of three whose
    /// pieces differ pair by pair.
    pub proof fn lemma_distinct_by_shape(self)
        ensures
            self.distinct() == match self {
                Tower::Empty => true,
                Tower::Single(_) => true,
                Tower::Double(bottom, middle) => !bottom.same_as(middle),
                Tower::Triple(bottom, middle, top) => !bottom.same_as(middle) && !bottom.same_as(
                    top,
                ) && !middle.same_as(top),
            },
    {
        let pieces = self@;
        match self {
            Tower::Empty => {},
            Tower::Single(_) => {},
            Tower::Double(bottom, middle) => {
                assert(pieces[0] == bottom && pieces[1] == middle);
            },
            Tower::Triple(bottom, middle, top) => {
                assert(pieces[0] == bottom && pieces[1] == middle && pieces[2] == top);
            },
        }
    }

    /// A tower is the tower of its own pieces.
    pub proof fn lemma_from_pieces_of_view(self)
        ensures
            Tower::from_pieces(self@) == self,
            self@.len() <= Tower::capacity(),
    {
    }

    /// Up to three pieces are the pieces of the tower made from them.
    pub proof fn lemma_view_of_from_pieces(pieces: Seq<Piece>)
        requires
            pieces.len() <= Tower::capacity(),
        ensures
            Tower::from_pieces(pieces)@ == pieces,
    {
    }

    /// Towers with the same pieces in the same order are the same tower.
    pub proof fn lemma_view_injective(self, other: Tower)
        requires
            self@ == other@,
        ensures
            self == other,
    {
        self.lemma_from_pieces_of_view();
        other.lemma_from_pieces_of_view();
    }

    /// Lifting after a drop that succeeded gives back the tower and the
    /// piece that was dropped.
    pub proof fn lemma_drop_then_lift(self, piece: Piece)
        requires
            self.dropped(piece) is Ok,
        ensures
            self.dropped(piece)->Ok_0.lifted() == Ok::<(Tower, Piece), TowerError>((self, piece)),
    {
        let pieces = self@.push(piece);
        Tower::lemma_view_of_from_pieces(pieces);
        assert(pieces.drop_last() == self@);
        self.lemma_from_pieces_of_view();
    }

    /// Dropping the lifted piece back onto what a lift left gives the tower
    /// that was lifted from.
    pub proof fn lemma_lift_then_drop(self)
        requires
            self.lifted() is Ok,
        ensures
            self.lifted()->Ok_0.0.dropped(self.lifted()->Ok_0.1) == Ok::<Tower, TowerError>(self),
    {
        let rest = self@.drop_last();
        Tower::lemma_view_of_from_pieces(rest);
        assert(rest.push(self@.last()) == self@);
        self.lemma_from_pieces_of_view();
    }

    /// The empty tower gives nothing to lift, and a tower of three takes no
    /// piece.
    pub proof fn lemma_lift_and_drop_limits(bottom: Piece, middle: Piece, top: Piece, piece: Piece)
        ensures
            Tower::Empty.lifted() == Err::<(Tower, Piece), TowerError>(TowerError::EmptyTower),
            Tower::Triple(bottom, middle, top).dropped(piece) == Err::<Tower, TowerError>(
                TowerError::TowerFull,
            ),
    {
    }

    /// A drop gives a `distinct` tower where the tower was `distinct` and held
    /// no piece that is the same as the new one, and there only.
    pub proof fn lemma_drop_and_distinct(self, piece: Piece)
        requires
            self.dropped(piece) is Ok,
        ensures
            self.dropped(piece)->Ok_0.distinct() == (self.distinct() && !self.holds(piece)),
    {
        let before = self@;
        let after = self@.push(piece);
        let taller = self.dropped(piece)->Ok_0;
        Tower::lemma_view_of_from_pieces(after);
        if taller.distinct() {
            assert forall|i: int, j: int| 0 <= i < j < before.len() implies !(
            #[trigger] before[i]).same_as(#[trigger] before[j]) by {
                assert(after[i] == before[i] && after[j] == before[j]);
            }
            assert forall|i: int| 0 <= i < before.len() implies !(#[trigger] before[i]).same_as(
                piece,
            ) by {
                assert(after[i] == before[i] && after[before.len() as int] == piece);
            }
        }
        if self.distinct() && !self.holds(piece) {
            assert forall|i: int, j: int| 0 <= i < j < after.len() implies !(
            #[trigger] after[i]).same_as(#[trigger] after[j]) by {
                assert(after[i] == before[i]);
                if j < before.len() {
                    assert(after[j] == before[j]);
                }
            }
        }
    }

    /// A lift leaves a `distinct` tower `distinct`.
    pub proof fn lemma_lift_keeps_distinct(self)
        requires
            self.distinct(),
            self.lifted() is Ok,
        ensures
            self.lifted()->Ok_0.0.distinct(),
    {
        Tower::lemma_view_of_from_pieces(self@.drop_last());
    }
}

impl PartialEq for Tower {
    /// Towers are equal when they hold equally many pieces and the pieces
    /// are equal slot by slot.
    fn eq(&self, other: &Tower) -> (same: bool) {
        proof {
            let (mine, theirs) = (self@, other@);
            match (*self, *other) {
                (Tower::Single(b1), Tower::Single(b2)) => {
                    assert(mine[0] == b1 && theirs[0] == b2);
                },
                (Tower::Double(b1, m1), Tower::Double(b2, m2)) => {
                    assert(mine[0] == b1 && theirs[0] == b2);
                    assert(mine[1] == m1 && theirs[1] == m2);
                },
                (Tower::Triple(b1, m1, t1), Tower::Triple(b2, m2, t2)) => {
                    assert(mine[0] == b1 && theirs[0] == b2);
                    assert(mine[1] == m1 && theirs[1] == m2);
                    assert(mine[2] == t1 && theirs[2] == t2);
                },
                _ => {},
            }
        }
        match (*self, *other) {
            (Tower::Empty, Tower::Empty) => true,
            (Tower::Single(b1), Tower::Single(b2)) => b1 == b2,
            (Tower::Double(b1, m1), Tower::Double(b2, m2)) => b1 == b2 && m1 == m2,
            (Tower::Triple(b1, m1, t1), Tower::Triple(b2, m2, t2)) => b1 == b2 && m1 == m2 && t1
                == t2,
            _ => false,
        }
    }
}

impl PartialEqSpecImpl for Tower {
    open spec fn obeys_eq_spec() -> bool {
        true
    }

    open spec fn eq_spec(&self, other: &Tower) -> bool {
        &&& self@.len() == other@.len()
        &&& forall|i: int| 0 <= i < self@.len() ==> (#[trigger] self@[i]).same_as(other@[i])
    }
}

impl Eq for Tower {

}

/// A player, who holds the pieces that are not on the board.
#[derive(Debug, PartialEq, Eq)]
pub struct Player {
    pub hand: Vec<Piece>,
}

impl Player {
    /// A player with nothing in hand.
    pub fn new_blank() -> (player: Player)
        ensures
            player.hand@ == Seq::<Piece>::empty(),
    {
        Player { hand: Vec::new() }
    }
}

impl PieceCombination {
    /// How many pieces of this combination a player has at the beginning of
    /// the game.
    pub open spec fn initial_count(self) -> nat {
        match self {
            PieceCombination::Commander => 1,
            PieceCombination::CaptainPistol => 2,
            PieceCombination::SamuraiPike => 2,
            PieceCombination::SpyCladestinite => 3,
            PieceCombination::CatapultLance => 1,
            PieceCombination::FortressLance => 1,
            PieceCombination::HiddenDragonKing => 1,
            PieceCombination::ProdigyPhoenix => 1,
            PieceCombination::BowArrow => 2,
            PieceCombination::PawnBronze => 7,
            PieceCombination::PawnSilver => 1,
            PieceCombination::PawnGold => 1,
        }
    }
}

/// How often `combination` occurs in `hand`.
pub open spec fn occurrences(hand: Seq<PieceCombination>, combination: PieceCombination) -> nat
    decreases hand.len(),
{
    if hand.len() == 0 {
        0
    } else {
        occurrences(hand.drop_last(), combination) + if hand.last() == combination {
            1nat
        } else {
            0nat
        }
    }
}

/// The hand with which a player begins, in the order in which it is dealt.
pub open spec fn starting_hand() -> Seq<PieceCombination> {
    seq![
        PieceCombination::Commander,
        PieceCombination::CaptainPistol,
        PieceCombination::CaptainPistol,
        PieceCombination::SamuraiPike,
        PieceCombination::SamuraiPike,
        PieceCombination::SpyCladestinite,
        PieceCombination::SpyCladestinite,
        PieceCombination::SpyCladestinite,
        PieceCombination::CatapultLance,
        PieceCombination::FortressLance,
        PieceCombination::HiddenDragonKing,
        PieceCombination::ProdigyPhoenix,
        PieceCombination::BowArrow,
        PieceCombination::BowArrow,
        PieceCombination::PawnBronze,
        PieceCombination::PawnBronze,
        PieceCombination::PawnBronze,
        PieceCombination::PawnBronze,
        PieceCombination::PawnBronze,
        PieceCombination::PawnBronze,
        PieceCombination::PawnBronze,
        PieceCombination::PawnSilver,
        PieceCombination::PawnGold,
    ]
}

/// The starting hand holds each combination as often as `initial_count`
/// says, 23 pieces in all.
pub proof fn lemma_starting_hand_counts()
    ensures
        starting_hand().len() == 23,
        forall|combination: PieceCombination|
            #[trigger] occurrences(starting_hand(), combination) == combination.initial_count(),
{
    reveal_with_fuel(occurrences, 24);
}

/// Returns the pieces that a player has at the beginning of the game:
/// one Commander, two Captains, two Samurai, three Spies, one Catapult, one
/// Fortress, one Hidden Dragon, one Prodigy, two Bows and nine Pawns, of
/// which seven have Bronze on the back, one Silver and one Gold.
pub fn initial_hand() -> (hand: Vec<PieceCombination>)
    ensures
        hand@ == starting_hand(),
        hand@.len() == 23,
        forall|combination: PieceCombination|
            #[trigger] occurrences(hand@, combination) == combination.initial_count(),
{
    proof {
        lemma_starting_hand_counts();
    }
    vec![
        PieceCombination::Commander,
        PieceCombination::CaptainPistol,
        PieceCombination::CaptainPistol,
        PieceCombination::SamuraiPike,
        PieceCombination::SamuraiPike,
        PieceCombination::SpyCladestinite,
        PieceCombination::SpyCladestinite,
        PieceCombination::SpyCladestinite,
        PieceCombination::CatapultLance,
        PieceCombination::FortressLance,
        PieceCombination::HiddenDragonKing,
        PieceCombination::ProdigyPhoenix,
        PieceCombination::BowArrow,
        PieceCombination::BowArrow,
        PieceCombination::PawnBronze,
        PieceCombination::PawnBronze,
        PieceCombination::PawnBronze,
        PieceCombination::PawnBronze,
        PieceCombination::PawnBronze,
        PieceCombination::PawnBronze,
        PieceCombination::PawnBronze,
        PieceCombination::PawnSilver,
        PieceCombination::PawnGold,
    ]
}

} // verus!
