//! The state behind the connect button of the display.

use vstd::prelude::*;
use crate::config::ChatbotConfig;
use crate::config::ChatbotConfigView;

verus! {

/// What the connect button stands for: whether the display takes the bot
/// for connected.
#[derive(Debug)]
pub struct ChatbotUILabels {
    connected: bool,
}

impl View for ChatbotUILabels {
    type V = bool;

    /// Whether the display takes the bot for connected.
    closed spec fn view(&self) -> bool {
        self.connected
    }
}

/// What a press of the connect button asks for.
#[derive(Debug, PartialEq, Eq)]
pub enum ButtonAction {
    /// Connect to the chat of this channel.
    Connect(String),
    /// Leave the chat of this channel.
    Disconnect(String),
    /// Nothing can be done: the account has no access token. The line goes
    /// to the log as an error.
    Refuse(String),
}

/// The mathematical value of a [`ButtonAction`].
pub enum ButtonActionView {
    Connect(Seq<char>),
    Disconnect(Seq<char>),
    Refuse(Seq<char>),
}

impl View for ButtonAction {
    type V = ButtonActionView;

    open spec fn view(&self) -> ButtonActionView {
        match self {
            ButtonAction::Connect(channel) => ButtonActionView::Connect(channel@),
            ButtonAction::Disconnect(channel) => ButtonActionView::Disconnect(channel@),
            ButtonAction::Refuse(line) => ButtonActionView::Refuse(line@),
        }
    }
}

/// What a press of the button asks for.
pub open spec fn press_action(connected: bool, config: ChatbotConfigView) -> ButtonActionView {
    if connected {
        ButtonActionView::Disconnect(config.channel_name)
    } else if config.auth_token.len() == 0 {
        ButtonActionView::Refuse("Tried to connect to the chat without auth token"@)
    } else {
        ButtonActionView::Connect(config.channel_name)
    }
}

/// Whether the display takes the bot for connected after a press of the
/// button.
pub open spec fn pressed(connected: bool, config: ChatbotConfigView) -> bool {
    if connected {
        false
    } else {
        config.auth_token.len() > 0
    }
}

impl ChatbotUILabels {
    /// The labels of a display that is not connected.
    pub fn new() -> (r: ChatbotUILabels)
        ensures
            !r@,
    {
        ChatbotUILabels { connected: false }
    }

    /// The status line.
    pub fn bot_status(&self) -> (r: &'static str)
        ensures
            r@ == (if self@ {
                "Connected"@
            } else {
                "Disconnected"@
            }),
    {
        if self.connected {
            "Connected"
        } else {
            "Disconnected"
        }
    }

    /// The label of the button.
    pub fn connect_button(&self) -> (r: &'static str)
        ensures
            r@ == (if self@ {
                "Disconnect"@
            } else {
                "Connect"@
            }),
    {
        if self.connected {
            "Disconnect"
        } else {
            "Connect"
        }
    }

    /// A press of the button: it connects where the display is not
    /// connected and the account has an access token, and disconnects
    /// where the display is connected.
    pub fn press(&mut self, config: &ChatbotConfig) -> (r: ButtonAction)
        ensures
            r@ == press_action(old(self)@, config@),
            final(self)@ == pressed(old(self)@, config@),
    {
        if self.connected {
            self.connected = false;
            ButtonAction::Disconnect(config.channel_name.clone())
        } else if !config.has_token() {
            ButtonAction::Refuse("Tried to connect to the chat without auth token".to_owned())
        } else {
            self.connected = true;
            ButtonAction::Connect(config.channel_name.clone())
        }
    }
}

} // verus!
