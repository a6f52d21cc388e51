//! The toast that a submit hands to leptoaster, and the calls into
//! leptoaster's builder that compose it.
use vstd::prelude::*;
use crate::level::Level;
use crate::position::Position;

verus! {

#[verifier::external_type_specification]
#[verifier::external_body]
pub struct ExToastBuilder(leptoaster::ToastBuilder);

/// What a leptoaster builder will show: message, level, dismissable flag,
/// expiry in milliseconds, progress flag and position.
pub uninterp spec fn builder_fields(b: leptoaster::ToastBuilder) -> (Seq<char>, Level, bool, Option<u32>, bool, Position);

/// Relies on leptoaster::ToastBuilder::new: the builder holds the message's
/// text, level Info, dismissable, an expiry of 2500 ms, a progress bar and
/// the bottom left position.
#[verifier::external_body]
fn builder_new(message: String) -> (r: leptoaster::ToastBuilder)
    ensures
        builder_fields(r) == (message@, Level::Info, true, Some(2500u32), true, Position::BottomLeft),
{
    leptoaster::ToastBuilder::new(message)
}

/// Relies on leptoaster::ToastBuilder::with_level: sets the level, keeps the
/// rest.
#[verifier::external_body]
fn builder_with_level(b: leptoaster::ToastBuilder, level: Level) -> (r: leptoaster::ToastBuilder)
    ensures
        builder_fields(r) == (
            builder_fields(b).0,
            level,
            builder_fields(b).2,
            builder_fields(b).3,
            builder_fields(b).4,
            builder_fields(b).5,
        ),
{
    b.with_level(
        match level {
            Level::Info => leptoaster::ToastLevel::Info,
            Level::Success => leptoaster::ToastLevel::Success,
            Level::Warn => leptoaster::ToastLevel::Warn,
            Level::Error => leptoaster::ToastLevel::Error,
        },
    )
}

/// Relies on leptoaster::ToastBuilder::with_dismissable: sets the
/// dismissable flag, keeps the rest.
#[verifier::external_body]
fn builder_with_dismissable(b: leptoaster::ToastBuilder, dismissable: bool) -> (r: leptoaster::ToastBuilder)
    ensures
        builder_fields(r) == (
            builder_fields(b).0,
            builder_fields(b).1,
            dismissable,
            builder_fields(b).3,
            builder_fields(b).4,
            builder_fields(b).5,
        ),
{
    b.with_dismissable(dismissable)
}

/// Relies on leptoaster::ToastBuilder::with_expiry: sets the expiry, or none,
/// keeps the rest.
#[verifier::external_body]
fn builder_with_expiry(b: leptoaster::ToastBuilder, expiry: Option<u32>) -> (r: leptoaster::ToastBuilder)
    ensures
        builder_fields(r) == (
            builder_fields(b).0,
            builder_fields(b).1,
            builder_fields(b).2,
            expiry,
            builder_fields(b).4,
            builder_fields(b).5,
        ),
{
    b.with_expiry(expiry)
}

/// Relies on leptoaster::ToastBuilder::with_progress: sets the progress flag,
/// keeps the rest.
#[verifier::external_body]
fn builder_with_progress(b: leptoaster::ToastBuilder, progress: bool) -> (r: leptoaster::ToastBuilder)
    ensures
        builder_fields(r) == (
            builder_fields(b).0,
            builder_fields(b).1,
            builder_fields(b).2,
            builder_fields(b).3,
            progress,
            builder_fields(b).5,
        ),
{
    b.with_progress(progress)
}

/// Relies on leptoaster::ToastBuilder::with_position: sets the position,
/// keeps the rest.
#[verifier::external_body]
fn builder_with_position(b: leptoaster::ToastBuilder, position: Position) -> (r: leptoaster::ToastBuilder)
    ensures
        builder_fields(r) == (
            builder_fields(b).0,
            builder_fields(b).1,
            builder_fields(b).2,
            builder_fields(b).3,
            builder_fields(b).4,
            position,
        ),
{
    b.with_position(
        match position {
            Position::TopLeft => leptoaster::ToastPosition::TopLeft,
            Position::TopRight => leptoaster::ToastPosition::TopRight,
            Position::BottomRight => leptoaster::ToastPosition::BottomRight,
            Position::BottomLeft => leptoaster::ToastPosition::BottomLeft,
        },
    )
}

/// Everything a toast is shown with.
pub struct ToastRequest {
    pub message: String,
    pub level: Level,
    pub dismissable: bool,
    /// Milliseconds until the toast leaves by itself; `None` keeps it until
    /// it is dismissed or cleared.
    pub expiry: Option<u32>,
    pub progress: bool,
    pub position: Position,
}

impl ToastRequest {
    /// The request's fields, in the order of `builder_fields`.
    pub open spec fn fields(&self) -> (Seq<char>, Level, bool, Option<u32>, bool, Position) {
        (self.message@, self.level, self.dismissable, self.expiry, self.progress, self.position)
    }

    /// A leptoaster builder that shows exactly this request.
    pub fn into_builder(self) -> (r: leptoaster::ToastBuilder)
        ensures
            builder_fields(r) == self.fields(),
    {
        let b = builder_new(self.message);
        let b = builder_with_level(b, self.level);
        let b = builder_with_dismissable(b, self.dismissable);
        let b = builder_with_expiry(b, self.expiry);
        let b = builder_with_progress(b, self.progress);
        builder_with_position(b, self.position)
    }
}

} // verus!
