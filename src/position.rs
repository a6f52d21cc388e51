//! Where on the screen a toast appears, and the tokens and labels of the
//! position selector's options.
use vstd::prelude::*;
use crate::text::same_text;

verus! {

/// The screen corner in which a toast appears.
#[derive(Clone, Copy, Debug, PartialEq, Eq, Structural)]
pub enum Position {
    TopLeft,
    TopRight,
    BottomRight,
    BottomLeft,
}

/// The token that the selector's option for `p` carries as its value.
pub open spec fn position_token(p: Position) -> Seq<char> {
    match p {
        Position::TopLeft => seq!['t', 'o', 'p', '_', 'l', 'e', 'f', 't'],
        Position::TopRight => seq!['t', 'o', 'p', '_', 'r', 'i', 'g', 'h', 't'],
        Position::BottomRight => seq!['b', 'o', 't', 't', 'o', 'm', '_', 'r', 'i', 'g', 'h', 't'],
        Position::BottomLeft => seq!['b', 'o', 't', 't', 'o', 'm', '_', 'l', 'e', 'f', 't'],
    }
}

/// The text that the selector shows for `p`.
pub open spec fn position_label(p: Position) -> Seq<char> {
    match p {
        Position::TopLeft => seq!['T', 'o', 'p', ' ', 'l', 'e', 'f', 't'],
        Position::TopRight => seq!['T', 'o', 'p', ' ', 'r', 'i', 'g', 'h', 't'],
        Position::BottomRight => seq!['B', 'o', 't', 't', 'o', 'm', ' ', 'r', 'i', 'g', 'h', 't'],
        Position::BottomLeft => seq!['B', 'o', 't', 't', 'o', 'm', ' ', 'l', 'e', 'f', 't'],
    }
}

/// The position whose option carries token `t`, if any.
pub open spec fn position_of_token(t: Seq<char>) -> Option<Position> {
    if t == position_token(Position::TopLeft) {
        Some(Position::TopLeft)
    } else if t == position_token(Position::TopRight) {
        Some(Position::TopRight)
    } else if t == position_token(Position::BottomRight) {
        Some(Position::BottomRight)
    } else if t == position_token(Position::BottomLeft) {
        Some(Position::BottomLeft)
    } else {
        None
    }
}

/// The positions in the order in which the selector lists them.
pub open spec fn position_options() -> Seq<Position> {
    seq![Position::TopLeft, Position::TopRight, Position::BottomRight, Position::BottomLeft]
}

impl Position {
    /// The positions in the order in which the selector lists them.
    pub fn options() -> (r: Vec<Position>)
        ensures
            r@ == position_options(),
    {
        let r = vec![Position::TopLeft, Position::TopRight, Position::BottomRight, Position::BottomLeft];
        assert(r@ =~= position_options());
        r
    }

    /// The token of this position's option.
    pub fn token(&self) -> (r: &'static str)
        ensures
            r@ == position_token(*self),
    {
        match self {
            Position::TopLeft => {
                proof { reveal_strlit("top_left"); }
                "top_left"
            },
            Position::TopRight => {
                proof { reveal_strlit("top_right"); }
                "top_right"
            },
            Position::BottomRight => {
                proof { reveal_strlit("bottom_right"); }
                "bottom_right"
            },
            Position::BottomLeft => {
                proof { reveal_strlit("bottom_left"); }
                "bottom_left"
            },
        }
    }

    /// The text shown for this position's option.
    pub fn label(&self) -> (r: &'static str)
        ensures
            r@ == position_label(*self),
    {
        match self {
            Position::TopLeft => {
                proof { reveal_strlit("Top left"); }
                "Top left"
            },
            Position::TopRight => {
                proof { reveal_strlit("Top right"); }
                "Top right"
            },
            Position::BottomRight => {
                proof { reveal_strlit("Bottom right"); }
                "Bottom right"
            },
            Position::BottomLeft => {
                proof { reveal_strlit("Bottom left"); }
                "Bottom left"
            },
        }
    }

    /// The position whose option carries `token`; `None` for any other text.
    pub fn from_token(token: &str) -> (r: Option<Position>)
        ensures
            r == position_of_token(token@),
    {
        if same_text(token, Position::TopLeft.token()) {
            Some(Position::TopLeft)
        } else if same_text(token, Position::TopRight.token()) {
            Some(Position::TopRight)
        } else if same_text(token, Position::BottomRight.token()) {
            Some(Position::BottomRight)
        } else if same_text(token, Position::BottomLeft.token()) {
            Some(Position::BottomLeft)
        } else {
            None
        }
    }

    /// Whether the option carrying `token` shows as selected while this
    /// position is held.
    pub fn is_selected(&self, token: &str) -> (r: bool)
        ensures
            r == (token@ == position_token(*self)),
    {
        same_text(token, self.token())
    }
}

/// Each position's token leads back to that position, and it is the only
/// token that does.
pub proof fn lemma_position_token_inverse(p: Position, t: Seq<char>)
    ensures
        position_of_token(position_token(p)) == Some(p),
        position_of_token(t) == Some(p) <==> t == position_token(p),
{
    assert(position_token(Position::TopLeft)[4] == 'l');
    assert(position_token(Position::TopRight)[4] == 'r');
    assert(position_token(Position::BottomRight).len() == 12);
    assert(position_token(Position::BottomLeft).len() == 11);
    assert(position_token(Position::TopLeft).len() == 8);
    assert(position_token(Position::TopRight).len() == 9);
}

} // verus!
