//! What the reconciler is told, and what it asks its caller to do in return.

use vstd::prelude::*;
use crate::container::ContainerDetails;
use crate::event::DockerEvent;
use crate::executor::{RuntimeCall, RuntimeCallView};

verus! {

/// The name of a window. The reconciler only compares such names; whoever
/// opens the windows chooses them.
#[derive(Clone, Copy, Debug, PartialEq, Eq, Structural)]
pub struct WindowId(pub u64);

/// What the popup shows.
#[derive(Clone, Copy, Debug, PartialEq, Eq, Structural)]
pub enum PopupView {
    ContainerList,
    ContainerLogs,
    ContainerDetails,
}

/// One thing the reconciler is told: a wish of the user, a report of a
/// source of data, or the completion of a command.
pub enum Message {
    TogglePopup,
    PopupClosed(WindowId),
    DockerEvent(DockerEvent),
    StartContainer(String),
    StopContainer(String),
    RestartContainer(String),
    ActionCompleted(Result<String, String>),
    /// Show the log of the container with the given id and name.
    ShowLogs(String, String),
    BackToList,
    OpenInBrowser(u16),
    SearchChanged(String),
    ClearSearch,
    ToggleGroup(String),
    StopAll,
    StartAll,
    StopGroup(String),
    StartGroup(String),
    /// Ask for confirmation before deleting the container.
    DeleteContainer(String),
    /// Delete the container that confirmation was asked for.
    ConfirmDelete(String),
    CancelDelete,
    CopyContainerId(String),
    /// Show the details of the container with the given id and name.
    ShowDetails(String, String),
    DetailsReceived(Result<(String, ContainerDetails), String>),
}

/// The heading of every notification.
pub const NOTICE_SUMMARY: &'static str = "Docker";

/// The icon of every notification.
pub const NOTICE_ICON: &'static str = "dialog-warning-symbolic";

/// What the user is to be notified of. Either names the container.
pub enum Notice {
    /// The container stopped, and nobody here asked for that.
    ContainerStopped(String),
    /// The container's health check fails.
    ContainerUnhealthy(String),
}

/// Mathematical value of a [`Notice`].
pub enum NoticeView {
    ContainerStopped(Seq<char>),
    ContainerUnhealthy(Seq<char>),
}

impl View for Notice {
    type V = NoticeView;

    open spec fn view(&self) -> NoticeView {
        match self {
            Notice::ContainerStopped(name) => NoticeView::ContainerStopped(name@),
            Notice::ContainerUnhealthy(name) => NoticeView::ContainerUnhealthy(name@),
        }
    }
}

/// What the reconciler asks its caller to do after a message.
pub enum Command {
    /// Nothing.
    Idle,
    /// Open the popup under the given name.
    OpenPopup(WindowId),
    /// Close the popup of the given name.
    ClosePopup(WindowId),
    /// Make the call, and report its completion with
    /// [`Message::ActionCompleted`].
    Run(RuntimeCall),
    /// Make the calls one after another up to the first failure, and report
    /// the result of the batch with [`Message::ActionCompleted`].
    RunEach(Vec<RuntimeCall>),
    /// Notify the user.
    Notify(Notice),
    /// Open the address in the user's browser.
    OpenUrl(String),
    /// Put the text on the clipboard.
    CopyText(String),
    /// Inspect the container with the given id, and report what came of it
    /// with [`Message::DetailsReceived`].
    FetchDetails(String),
}

/// Mathematical value of a [`Command`].
pub enum CommandView {
    Idle,
    OpenPopup(WindowId),
    ClosePopup(WindowId),
    Run(RuntimeCallView),
    RunEach(Seq<RuntimeCallView>),
    Notify(NoticeView),
    OpenUrl(Seq<char>),
    CopyText(Seq<char>),
    FetchDetails(Seq<char>),
}

impl View for Command {
    type V = CommandView;

    open spec fn view(&self) -> CommandView {
        match self {
            Command::Idle => CommandView::Idle,
            Command::OpenPopup(window) => CommandView::OpenPopup(*window),
            Command::ClosePopup(window) => CommandView::ClosePopup(*window),
            Command::Run(call) => CommandView::Run(call@),
            Command::RunEach(calls) => CommandView::RunEach(
                calls@.map_values(|call: RuntimeCall| call@),
            ),
            Command::Notify(notice) => CommandView::Notify(notice@),
            Command::OpenUrl(address) => CommandView::OpenUrl(address@),
            Command::CopyText(text) => CommandView::CopyText(text@),
            Command::FetchDetails(id) => CommandView::FetchDetails(id@),
        }
    }
}

} // verus!
