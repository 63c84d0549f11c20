//! Plain records of the service around the data layer: items, chats,
//! prompts and sign-in.

use vstd::prelude::*;
use vstd::string::*;

verus! {

/// An item of the catalogue.
#[derive(Debug)]
pub struct Item {
    pub id: i32,
    pub name: String,
    pub description: String,
}

impl Item {
    pub fn new(id: i32, name: String, description: String) -> (item: Item)
        ensures
            item.id == id,
            item.name == name,
            item.description == description,
    {
        Item { id, name, description }
    }
}

/// An item as it is sent out.
#[derive(Debug)]
pub struct ItemResponse {
    pub id: i32,
    pub name: String,
    pub description: String,
}

impl ItemResponse {
    /// The response that shows `item`.
    pub fn from_item(item: &Item) -> (response: ItemResponse)
        ensures
            response.id == item.id,
            response.name == item.name,
            response.description == item.description,
    {
        ItemResponse {
            id: item.id,
            name: item.name.clone(),
            description: item.description.clone(),
        }
    }
}

/// The conversation of one wallet.
#[derive(Debug)]
pub struct Chat {
    pub public_key: String,
    pub conversation: String,
}

impl Chat {
    pub fn new(public_key: String, conversation: String) -> (chat: Chat)
        ensures
            chat.public_key == public_key,
            chat.conversation == conversation,
    {
        Chat { public_key, conversation }
    }

    /// Replaces the conversation; the wallet stays.
    pub fn update_conversation(&mut self, conversation: String)
        ensures
            final(self).public_key == old(self).public_key,
            final(self).conversation == conversation,
    {
        self.conversation = conversation;
    }
}

/// A chat as it is stored.
#[derive(Debug)]
pub struct ChatDocument {
    pub public_key: String,
    pub conversation: String,
}

impl ChatDocument {
    /// The document that stores `chat`.
    pub fn from_chat(chat: Chat) -> (document: ChatDocument)
        ensures
            document.public_key == chat.public_key,
            document.conversation == chat.conversation,
    {
        ChatDocument { public_key: chat.public_key, conversation: chat.conversation }
    }

    /// The chat that this document stores.
    pub fn into_chat(self) -> (chat: Chat)
        ensures
            chat.public_key == self.public_key,
            chat.conversation == self.conversation,
    {
        Chat { public_key: self.public_key, conversation: self.conversation }
    }
}

/// A request to store a chat.
#[derive(Debug)]
pub struct AddChatRequest {
    pub public_key: String,
    pub conversation: String,
}

/// A prompt of a wallet.
#[derive(Debug)]
pub struct PromptRequest {
    pub prompt: String,
    pub address: String,
}

/// The answer to a prompt.
#[derive(Debug)]
pub struct PromptResponse {
    pub response_text: String,
}

/// A prompt as it is passed on to the language backend.
#[derive(Debug)]
pub struct NodeJsRequest<'a> {
    pub prompt: &'a str,
    pub address: &'a str,
}

/// What the language backend answers.
#[derive(Debug)]
pub struct LLMResponse {
    pub response_text: String,
}

/// A signed message with which a wallet signs in.
#[derive(Debug)]
pub struct AuthRequest {
    pub address: String,
    pub message: String,
    pub signature: String,
    pub wallet_type: String,
    pub pub_key: Option<String>,
}

/// The token a wallet gets on signing in.
#[derive(Debug)]
pub struct AuthResponse {
    pub token: String,
}

/// The claims of a session token: whose it is and when it expires.
#[derive(Debug)]
pub struct Claims {
    pub sub: String,
    pub exp: usize,
}

} // verus!
