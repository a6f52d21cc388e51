//! The severity of a toast, and the tokens and labels of the severity
//! selector's options.
use vstd::prelude::*;
use crate::text::same_text;

verus! {

/// How severe a toast is; it decides the toast's styling.
#[derive(Clone, Copy, Debug, PartialEq, Eq, Structural)]
pub enum Level {
    Info,
    Success,
    Warn,
    Error,
}

/// The token that the selector's option for `l` carries as its value.
pub open spec fn level_token(l: Level) -> Seq<char> {
    match l {
        Level::Info => seq!['i', 'n', 'f', 'o'],
        Level::Success => seq!['s', 'u', 'c', 'c', 'e', 's', 's'],
        Level::Warn => seq!['w', 'a', 'r', 'n'],
        Level::Error => seq!['e', 'r', 'r', 'o', 'r'],
    }
}

/// The text that the selector shows for `l`.
pub open spec fn level_label(l: Level) -> Seq<char> {
    match l {
        Level::Info => seq!['I', 'n', 'f', 'o'],
        Level::Success => seq!['S', 'u', 'c', 'c', 'e', 's', 's'],
        Level::Warn => seq!['W', 'a', 'r', 'n'],
        Level::Error => seq!['E', 'r', 'r', 'o', 'r'],
    }
}

/// The level whose option carries token `t`, if any.
pub open spec fn level_of_token(t: Seq<char>) -> Option<Level> {
    if t == level_token(Level::Info) {
        Some(Level::Info)
    } else if t == level_token(Level::Success) {
        Some(Level::Success)
    } else if t == level_token(Level::Warn) {
        Some(Level::Warn)
    } else if t == level_token(Level::Error) {
        Some(Level::Error)
    } else {
        None
    }
}

/// The levels in the order in which the selector lists them.
pub open spec fn level_options() -> Seq<Level> {
    seq![Level::Info, Level::Success, Level::Warn, Level::Error]
}

impl Level {
    /// The levels in the order in which the selector lists them.
    pub fn options() -> (r: Vec<Level>)
        ensures
            r@ == level_options(),
    {
        let r = vec![Level::Info, Level::Success, Level::Warn, Level::Error];
        assert(r@ =~= level_options());
        r
    }

    /// The token of this level's option.
    pub fn token(&self) -> (r: &'static str)
        ensures
            r@ == level_token(*self),
    {
        match self {
            Level::Info => {
                proof { reveal_strlit("info"); }
                "info"
            },
            Level::Success => {
                proof { reveal_strlit("success"); }
                "success"
            },
            Level::Warn => {
                proof { reveal_strlit("warn"); }
                "warn"
            },
            Level::Error => {
                proof { reveal_strlit("error"); }
                "error"
            },
        }
    }

    /// The text shown for this level's option.
    pub fn label(&self) -> (r: &'static str)
        ensures
            r@ == level_label(*self),
    {
        match self {
            Level::Info => {
                proof { reveal_strlit("Info"); }
                "Info"
            },
            Level::Success => {
                proof { reveal_strlit("Success"); }
                "Success"
            },
            Level::Warn => {
                proof { reveal_strlit("Warn"); }
                "Warn"
            },
            Level::Error => {
                proof { reveal_strlit("Error"); }
                "Error"
            },
        }
    }

    /// The level whose option carries `token`; `None` for any other text.
    pub fn from_token(token: &str) -> (r: Option<Level>)
        ensures
            r == level_of_token(token@),
    {
        if same_text(token, Level::Info.token()) {
            Some(Level::Info)
        } else if same_text(token, Level::Success.token()) {
            Some(Level::Success)
        } else if same_text(token, Level::Warn.token()) {
            Some(Level::Warn)
        } else if same_text(token, Level::Error.token()) {
            Some(Level::Error)
        } else {
            None
        }
    }

    /// Whether the option carrying `token` shows as selected while this
    /// level is held.
    pub fn is_selected(&self, token: &str) -> (r: bool)
        ensures
            r == (token@ == level_token(*self)),
    {
        same_text(token, self.token())
    }
}

/// Each level's token leads back to that level, and it is the only token
/// that does.
pub proof fn lemma_level_token_inverse(l: Level, t: Seq<char>)
    ensures
        level_of_token(level_token(l)) == Some(l),
        level_of_token(t) == Some(l) <==> t == level_token(l),
{
    assert(level_token(Level::Info)[0] == 'i');
    assert(level_token(Level::Success)[0] == 's');
    assert(level_token(Level::Warn)[0] == 'w');
    assert(level_token(Level::Error)[0] == 'e');
}

} // verus!
