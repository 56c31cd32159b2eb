//! The emojis that head the team-chat notifications.
use vstd::prelude::*;

verus! {

/// An emoji that heads a notification.
#[derive(Debug, Clone, Copy, PartialEq, Eq, Structural)]
pub enum Emoji {
    Art,
    Dollar,
    Down,
    ElectricPlug,
    ImageFrame,
    New,
    Warning,
}

} // verus!
