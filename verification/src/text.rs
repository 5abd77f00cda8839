use crate::board::{MoveError, StepError};
use crate::pieces::{Color, Piece, PieceType, SideType, Tower, TowerError};
use vstd::prelude::*;

verus! {

impl Color {
    /// The name of the color, as it is written.
    pub open spec fn name_text(self) -> Seq<char> {
        match self {
            Color::Black => "Black"@,
            Color::White => "White"@,
        }
    }

    /// The name of the color: `Black` or `White`.
    pub fn name(&self) -> (name: &'static str)
        ensures
            name@ == self.name_text(),
    {
        match *self {
            Color::Black => "Black",
            Color::White => "White",
        }
    }
}

impl PieceType {
    /// The name of the piece type, as it is written: the words of the
    /// variant's name, with a space between them.
    pub open spec fn name_text(self) -> Seq<char> {
        match self {
            PieceType::Commander => "Commander"@,
            PieceType::Captain => "Captain"@,
            PieceType::Samurai => "Samurai"@,
            PieceType::Spy => "Spy"@,
            PieceType::Catapult => "Catapult"@,
            PieceType::Fortress => "Fortress"@,
            PieceType::HiddenDragon => "Hidden Dragon"@,
            PieceType::Prodigy => "Prodigy"@,
            PieceType::Bow => "Bow"@,
            PieceType::Pawn => "Pawn"@,
            PieceType::Pistol => "Pistol"@,
            PieceType::Pike => "Pike"@,
            PieceType::Clandestinite => "Clandestinite"@,
            PieceType::Lance => "Lance"@,
            PieceType::DragonKing => "Dragon King"@,
            PieceType::Phoenix => "Phoenix"@,
            PieceType::Arrow => "Arrow"@,
            PieceType::Bronze => "Bronze"@,
            PieceType::Silver => "Silver"@,
            PieceType::Gold => "Gold"@,
        }
    }

    /// The name of the piece type, such as `Pawn` or `Hidden Dragon`.
    pub fn name(&self) -> (name: &'static str)
        ensures
            name@ == self.name_text(),
    {
        match *self {
            PieceType::Commander => "Commander",
            PieceType::Captain => "Captain",
            PieceType::Samurai => "Samurai",
            PieceType::Spy => "Spy",
            PieceType::Catapult => "Catapult",
            PieceType::Fortress => "Fortress",
            PieceType::HiddenDragon => "Hidden Dragon",
            PieceType::Prodigy => "Prodigy",
            PieceType::Bow => "Bow",
            PieceType::Pawn => "Pawn",
            PieceType::Pistol => "Pistol",
            PieceType::Pike => "Pike",
            PieceType::Clandestinite => "Clandestinite",
            PieceType::Lance => "Lance",
            PieceType::DragonKing => "Dragon King",
            PieceType::Phoenix => "Phoenix",
            PieceType::Arrow => "Arrow",
            PieceType::Bronze => "Bronze",
            PieceType::Silver => "Silver",
            PieceType::Gold => "Gold",
        }
    }
}

impl Piece {
    /// The piece type on the side that does not show.
    pub open spec fn hidden_identity(self) -> PieceType {
        match self.current_side {
            SideType::Front => self.back_side,
            SideType::Back => self.front_side,
        }
    }

    /// The piece in writing: its color, the type it acts as and, in round
    /// brackets, the type on its hidden side, as in `Black Pawn (Gold)`.
    pub open spec fn text(self) -> Seq<char> {
        self.color.name_text() + " "@ + self.identity().name_text() + " ("@
            + self.hidden_identity().name_text() + ")"@
    }

    /// Writes the piece out, as in `Black Pawn (Gold)`.
    pub fn to_text(&self) -> (text: String)
        ensures
            text@ == self.text(),
    {
        let (shown, hidden) = match self.current_side {
            SideType::Front => (self.front_side, self.back_side),
            SideType::Back => (self.back_side, self.front_side),
        };
        let mut text = String::from_str(self.color.name());
        text.append(" ");
        text.append(shown.name());
        text.append(" (");
        text.append(hidden.name());
        text.append(")");
        text
    }
}

/// The pieces in writing, with a comma and a space between one and the next.
pub open spec fn listed(pieces: Seq<Piece>) -> Seq<char>
    decreases pieces.len(),
{
    if pieces.len() == 0 {
        Seq::<char>::empty()
    } else if pieces.len() == 1 {
        pieces[0].text()
    } else {
        listed(pieces.drop_last()) + ", "@ + pieces.last().text()
    }
}

impl Tower {
    /// The tower in writing: its pieces from the bottom up, in square
    /// brackets.
    pub open spec fn text(self) -> Seq<char> {
        "["@ + listed(self@) + "]"@
    }

    /// Writes the tower out, bottom piece first, as in
    /// `[Black Pawn (Gold), White Bow (Arrow)]`; the empty tower is `[]`.
    pub fn to_text(&self) -> (text: String)
        ensures
            text@ == self.text(),
    {
        let mut text = String::from_str("[");
        proof {
            reveal_with_fuel(listed, 4);
        }
        match *self {
            Tower::Empty => {},
            Tower::Single(piece) => {
                text.append(piece.to_text().as_str());
            },
            Tower::Double(bottom, middle) => {
                text.append(bottom.to_text().as_str());
                text.append(", ");
                text.append(middle.to_text().as_str());
            },
            Tower::Triple(bottom, middle, top) => {
                text.append(bottom.to_text().as_str());
                text.append(", ");
                text.append(middle.to_text().as_str());
                text.append(", ");
                text.append(top.to_text().as_str());
            },
        }
        text.append("]");
        text
    }
}

impl TowerError {
    /// The error in words.
    pub open spec fn message_text(self) -> Seq<char> {
        match self {
            TowerError::EmptyTower => "Cannot lift a piece off an empty tower!"@,
            TowerError::TowerFull => "Tower is full."@,
        }
    }

    /// Says in words what went wrong.
    pub fn message(&self) -> (message: &'static str)
        ensures
            message@ == self.message_text(),
    {
        match *self {
            TowerError::EmptyTower => "Cannot lift a piece off an empty tower!",
            TowerError::TowerFull => "Tower is full.",
        }
    }
}

impl MoveError {
    /// The error in words.
    pub open spec fn message_text(self) -> Seq<char> {
        match self {
            MoveError::SourceEmpty => "Couldn't pop piece successfully"@,
            MoveError::DestinationFull => "Couldn't drop piece successfully"@,
        }
    }

    /// Says in words what went wrong.
    pub fn message(&self) -> (message: &'static str)
        ensures
            message@ == self.message_text(),
    {
        match *self {
            MoveError::SourceEmpty => "Couldn't pop piece successfully",
            MoveError::DestinationFull => "Couldn't drop piece successfully",
        }
    }
}

impl StepError {
    /// The error in words.
    pub open spec fn message_text(self) -> Seq<char> {
        match self {
            StepError::Negative => "Result was negative"@,
            StepError::TooLarge => "Result was too large"@,
        }
    }

    /// Says in words what went wrong.
    pub fn message(&self) -> (message: &'static str)
        ensures
            message@ == self.message_text(),
    {
        match *self {
            StepError::Negative => "Result was negative",
            StepError::TooLarge => "Result was too large",
        }
    }
}

} // verus!
