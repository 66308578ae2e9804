use vstd::prelude::*;

verus! {

/// A named operation that a dialog runs once it resolves.
#[derive(Clone, Copy, Debug, PartialEq, Eq, Structural)]
pub enum Action {
    /// Append the selected catalog track to the chosen playlist.
    AppendToPlaylist,
    /// Load the chosen playlist and follow it in playback.
    PlayPlaylist,
    /// Open the chosen playlist for editing.
    EditPlaylist,
    /// Create an empty playlist under the entered name.
    CreatePlaylist,
    /// Store the edited playlist.
    ApplyEdit,
    /// Drop the edited playlist.
    DiscardEdit,
    /// Replace an existing playlist by an empty one under the entered name.
    ResetPlaylist,
    /// Do nothing but close the dialog.
    Dismiss,
}

} // verus!
