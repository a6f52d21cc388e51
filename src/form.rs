//! The configuration form: its fields, the edits that change them, and the
//! submit and reset actions.
use vstd::prelude::*;
use crate::level::{Level, level_token, level_of_token, lemma_level_token_inverse};
use crate::position::{Position, position_token, position_of_token, lemma_position_token_inverse};
use crate::text::{parse_decimal_u32, parse_u32};
use crate::toast::{ToastRequest, builder_fields};

verus! {

/// The message that a submit with an empty message field sends, and the
/// message field's starting text.
pub open spec fn default_message() -> Seq<char> {
    seq!['T', 'o', 'a', 's', 't', ' ', 'm', 'e', 's', 's', 'a', 'g', 'e']
}

/// The expiry field's starting value, in milliseconds.
pub const DEFAULT_EXPIRY: u32 = 2500;

/// The values that the form's fields hold.
pub struct ToastForm {
    pub message: String,
    /// Milliseconds after which a submitted toast leaves by itself, when
    /// `expiry_enabled` holds.
    pub expiry: u32,
    pub dismissable: bool,
    pub expiry_enabled: bool,
    pub progress_enabled: bool,
    pub level: Level,
    pub position: Position,
    /// Whether several toasts on screen stack.
    pub stacked: bool,
}

/// The message that a submit sends for message field `m`.
pub open spec fn submitted_message(m: Seq<char>) -> Seq<char> {
    if m.len() == 0 {
        default_message()
    } else {
        m
    }
}

/// The expiry that a submit sends: the field's value while expiry is
/// enabled, none otherwise.
pub open spec fn submitted_expiry(expiry_enabled: bool, expiry: u32) -> Option<u32> {
    if expiry_enabled {
        Some(expiry)
    } else {
        None
    }
}

/// A fresh copy of the default message.
fn default_message_text() -> (r: String)
    ensures
        r@ == default_message(),
{
    let r = "Toast message".to_owned();
    proof { reveal_strlit("Toast message"); }
    assert(r@ =~= default_message());
    r
}

impl ToastForm {
    /// Whether every field holds its starting value.
    pub open spec fn is_default(&self) -> bool {
        &&& self.message@ == default_message()
        &&& self.expiry == DEFAULT_EXPIRY
        &&& self.dismissable
        &&& self.expiry_enabled
        &&& self.progress_enabled
        &&& self.level == Level::Success
        &&& self.position == Position::BottomLeft
        &&& !self.stacked
    }

    /// What a submit of this form sends, in the order of `builder_fields`.
    pub open spec fn submitted(&self) -> (Seq<char>, Level, bool, Option<u32>, bool, Position) {
        (
            submitted_message(self.message@),
            self.level,
            self.dismissable,
            submitted_expiry(self.expiry_enabled, self.expiry),
            self.progress_enabled,
            self.position,
        )
    }

    /// A form whose fields hold their starting values.
    pub fn new() -> (r: ToastForm)
        ensures
            r.is_default(),
    {
        ToastForm {
            message: default_message_text(),
            expiry: DEFAULT_EXPIRY,
            dismissable: true,
            expiry_enabled: true,
            progress_enabled: true,
            level: Level::Success,
            position: Position::BottomLeft,
            stacked: false,
        }
    }

    /// Puts every field back to its starting value.
    pub fn reset(&mut self)
        ensures
            final(self).is_default(),
    {
        *self = ToastForm::new();
    }

    /// Whether submit, reset and clear are offered: only while the message
    /// field holds text.
    pub fn actions_enabled(&self) -> (r: bool)
        ensures
            r == (self.message@.len() > 0),
    {
        !self.message.as_str().is_empty()
    }

    /// Whether the expiry input and the progress toggle are offered: only
    /// while expiry is enabled.
    pub fn expiry_controls_enabled(&self) -> (r: bool)
        ensures
            r == self.expiry_enabled,
    {
        self.expiry_enabled
    }

    /// Takes the text of the message field.
    pub fn set_message(&mut self, message: String)
        ensures
            *final(self) == (ToastForm { message: message, ..*old(self) }),
    {
        self.message = message;
    }

    /// Takes the text of the expiry field: a numeral that fits in a `u32`
    /// becomes the expiry, and any other text leaves the expiry as it was.
    pub fn set_expiry_input(&mut self, text: &str)
        ensures
            *final(self) == (match parse_u32(text@) {
                Some(v) => ToastForm { expiry: v, ..*old(self) },
                None => *old(self),
            }),
            parse_u32(text@) is None ==> final(self).expiry == old(self).expiry,
    {
        match parse_decimal_u32(text) {
            Some(v) => self.expiry = v,
            None => {},
        }
    }

    /// Sets whether a submitted toast can be dismissed by a click.
    pub fn set_dismissable(&mut self, dismissable: bool)
        ensures
            *final(self) == (ToastForm { dismissable: dismissable, ..*old(self) }),
    {
        self.dismissable = dismissable;
    }

    /// Sets whether a submitted toast expires.
    pub fn set_expiry_enabled(&mut self, expiry_enabled: bool)
        ensures
            *final(self) == (ToastForm { expiry_enabled: expiry_enabled, ..*old(self) }),
    {
        self.expiry_enabled = expiry_enabled;
    }

    /// Sets whether a submitted toast shows a progress bar.
    pub fn set_progress_enabled(&mut self, progress_enabled: bool)
        ensures
            *final(self) == (ToastForm { progress_enabled: progress_enabled, ..*old(self) }),
    {
        self.progress_enabled = progress_enabled;
    }

    /// Sets whether toasts on screen stack.
    pub fn set_stacked(&mut self, stacked: bool)
        ensures
            *final(self) == (ToastForm { stacked: stacked, ..*old(self) }),
    {
        self.stacked = stacked;
    }

    /// Takes the token of the chosen severity option. Only the four option
    /// tokens can be chosen.
    pub fn select_level(&mut self, token: &str)
        requires
            level_of_token(token@) is Some,
        ensures
            *final(self) == (ToastForm { level: level_of_token(token@)->Some_0, ..*old(self) }),
            level_token(final(self).level) == token@,
    {
        proof { lemma_level_token_inverse(level_of_token(token@)->Some_0, token@); }
        match Level::from_token(token) {
            Some(l) => self.level = l,
            None => {},
        }
    }

    /// Takes the token of the chosen position option. Only the four option
    /// tokens can be chosen.
    pub fn select_position(&mut self, token: &str)
        requires
            position_of_token(token@) is Some,
        ensures
            *final(self) == (ToastForm { position: position_of_token(token@)->Some_0, ..*old(self) }),
            position_token(final(self).position) == token@,
    {
        proof { lemma_position_token_inverse(position_of_token(token@)->Some_0, token@); }
        match Position::from_token(token) {
            Some(p) => self.position = p,
            None => {},
        }
    }

    /// What a submit sends: the message, or the default message when the
    /// field is empty, and the expiry only while expiry is enabled.
    pub fn request(&self) -> (r: ToastRequest)
        ensures
            r.fields() == self.submitted(),
    {
        let message = if self.message.as_str().is_empty() {
            default_message_text()
        } else {
            self.message.clone()
        };
        let expiry = if self.expiry_enabled {
            Some(self.expiry)
        } else {
            None
        };
        ToastRequest {
            message,
            level: self.level,
            dismissable: self.dismissable,
            expiry,
            progress: self.progress_enabled,
            position: self.position,
        }
    }

    /// The leptoaster builder that a submit hands to the toaster.
    pub fn build_toast(&self) -> (r: leptoaster::ToastBuilder)
        ensures
            builder_fields(r) == self.submitted(),
    {
        self.request().into_builder()
    }
}

/// A submit with an empty message field sends the default message.
pub proof fn lemma_empty_message_sends_default(f: ToastForm)
    requires
        f.message@.len() == 0,
    ensures
        f.submitted().0 == default_message(),
{
}

/// While expiry is disabled a submit sends no expiry, whatever value the
/// expiry field holds.
pub proof fn lemma_disabled_expiry_sends_none(f: ToastForm, expiry: u32)
    requires
        !f.expiry_enabled,
    ensures
        f.submitted().3 is None,
        (ToastForm { expiry: expiry, ..f }).submitted() == f.submitted(),
{
}

} // verus!
