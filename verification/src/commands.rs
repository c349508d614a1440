//! The commands windows send one another, and the errors of the icon
//! helpers.
//!
//! The main window, the callout window, the chat window and the tray menu
//! run in one event loop but are owned separately; they talk through these
//! plain messages.

use vstd::prelude::*;

verus! {

/// What the callout window is asked to do.
#[derive(Debug, Clone)]
pub enum CalloutCommand {
    /// Show a talk bubble with this text.
    Say(String),
    /// Show a thought bubble with this text.
    Think(String),
    /// Show an exclamation bubble with this text.
    Scream(String),
    /// Dismiss the bubble.
    Hide,
}

/// One message of the chat transcript.
#[derive(Debug, Clone)]
pub struct ChatMessage {
    /// Who wrote it: `user` or `assistant`.
    pub role: String,
    /// The message text.
    pub content: String,
}

/// What the chat window is asked to do.
#[derive(Debug)]
pub enum ChatWindowCommand {
    /// Open the chat window.
    Show,
    /// Close the chat window.
    Hide,
    /// Open the chat window if closed, close it if open.
    Toggle,
    /// Append a message to the transcript.
    AddMessage(ChatMessage),
}

/// What the tray menu asked for.
#[derive(Debug)]
pub enum TrayCommand {
    /// Open the chat window.
    OpenChat,
    /// Switch the persona to this animation state.
    SetState(String),
    /// Quit the program.
    Quit,
}

/// Why an icon could not be set up.
#[derive(Debug)]
pub enum IconError {
    /// The icon image could not be decoded.
    ImageLoadError(String),
    /// The decoded image could not become an icon.
    IconCreationError(String),
    /// The tray refused the icon.
    TrayBuildError(String),
    /// The icon file could not be read.
    IoError(String),
}

impl IconError {
    /// A human-readable description of the failure.
    pub fn message(&self) -> &String {
        match self {
            IconError::ImageLoadError(m) => m,
            IconError::IconCreationError(m) => m,
            IconError::TrayBuildError(m) => m,
            IconError::IoError(m) => m,
        }
    }
}

/// Put the application's icon on the dock.  Platforms without a dock have
/// nothing to do and accept any bytes.
pub fn set_dock_icon(_bytes: &[u8]) -> (r: Result<(), IconError>)
    ensures
        r is Ok,
{
    Ok(())
}

} // verus!
