//! The settings that the backend reads: the chat account, and for each
//! feature whether it is on and who may use it.

use vstd::prelude::*;
use crate::roles::PermitedRoles;
use crate::text::is_blank;
use crate::text::str_is_blank;

verus! {

/// The chat account: the channel, the tokens of the account, and the
/// message that greets the chat after connecting.
#[derive(Debug, PartialEq, Eq)]
pub struct ChatbotConfig {
    pub channel_name: String,
    pub auth_token: String,
    pub refresh_token: String,
    pub welcome_message: String,
}

/// The mathematical value of a [`ChatbotConfig`].
pub struct ChatbotConfigView {
    pub channel_name: Seq<char>,
    pub auth_token: Seq<char>,
    pub refresh_token: Seq<char>,
    pub welcome_message: Seq<char>,
}

impl View for ChatbotConfig {
    type V = ChatbotConfigView;

    open spec fn view(&self) -> ChatbotConfigView {
        ChatbotConfigView {
            channel_name: self.channel_name@,
            auth_token: self.auth_token@,
            refresh_token: self.refresh_token@,
            welcome_message: self.welcome_message@,
        }
    }
}

impl Clone for ChatbotConfig {
    fn clone(&self) -> (r: Self)
        ensures
            r@ == self@,
    {
        ChatbotConfig {
            channel_name: self.channel_name.clone(),
            auth_token: self.auth_token.clone(),
            refresh_token: self.refresh_token.clone(),
            welcome_message: self.welcome_message.clone(),
        }
    }
}

impl ChatbotConfig {
    /// This configuration with new tokens.
    pub fn with_tokens(self, auth_token: String, refresh_token: String) -> (r: ChatbotConfig)
        ensures
            r@ == (ChatbotConfigView {
                auth_token: auth_token@,
                refresh_token: refresh_token@,
                ..self@
            }),
    {
        ChatbotConfig {
            channel_name: self.channel_name,
            auth_token,
            refresh_token,
            welcome_message: self.welcome_message,
        }
    }

    /// The message that greets the chat; `None` where the configured
    /// message is blank.
    pub fn welcome(&self) -> (r: Option<String>)
        ensures
            r matches Some(m) ==> m@ == self@.welcome_message,
            r is None == is_blank(self@.welcome_message),
    {
        if str_is_blank(self.welcome_message.as_str()) {
            None
        } else {
            Some(self.welcome_message.clone())
        }
    }

    /// Whether the account can connect: it has an access token.
    pub fn has_token(&self) -> (r: bool)
        ensures
            r == (self@.auth_token.len() > 0),
    {
        !self.auth_token.as_str().is_empty()
    }
}

/// The settings of a feature: whether it is on, and who may use it.
#[derive(Clone, Copy, Debug, PartialEq, Eq, Structural)]
pub struct FeatureConfig {
    pub enabled: bool,
    pub permited_roles: PermitedRoles,
}

} // verus!
