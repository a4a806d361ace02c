//! The objects that cross the boundary to the query service.

use vstd::prelude::*;

verus! {

/// The request sent to the query service.
#[derive(Clone, Debug)]
pub struct ChatMessageInput {
    /// Optional credential; the relay never sets one.
    pub api_key: Option<String>,
    /// The user's query text.
    pub body: String,
}

/// Mathematical model of a [`ChatMessageInput`].
pub struct ChatMessageInputView {
    pub api_key: Option<Seq<char>>,
    pub body: Seq<char>,
}

impl View for ChatMessageInput {
    type V = ChatMessageInputView;

    open spec fn view(&self) -> ChatMessageInputView {
        ChatMessageInputView { api_key: self.api_key.deep_view(), body: self.body@ }
    }
}

impl DeepView for ChatMessageInput {
    type V = ChatMessageInputView;

    open spec fn deep_view(&self) -> ChatMessageInputView {
        self@
    }
}

/// The reply of the query service.
#[derive(Clone, Debug)]
pub struct ChatMessageOutput {
    /// The reply text.
    pub body: String,
    /// Transactions the reply proposes; may be absent, may be empty.
    pub tx_array: Option<Vec<RawTxInput>>,
    /// Further data of no fixed shape. A present JSON `null` is not the same
    /// as an absent value.
    pub structured_data: Option<serde_json::Value>,
}

/// Mathematical model of a [`ChatMessageOutput`].
pub struct ChatMessageOutputView {
    pub body: Seq<char>,
    pub tx_array: Option<Seq<RawTxView>>,
    pub structured_data: Option<serde_json::Value>,
}

impl View for ChatMessageOutput {
    type V = ChatMessageOutputView;

    open spec fn view(&self) -> ChatMessageOutputView {
        ChatMessageOutputView {
            body: self.body@,
            tx_array: self.tx_array.deep_view(),
            structured_data: self.structured_data,
        }
    }
}

/// One transaction record of a reply.
#[derive(Clone, Debug)]
pub struct RawTxInput {
    /// Identifies the blockchain network.
    pub chain_id: i64,
    /// Destination address.
    pub to_address: String,
    /// Encoded payload; carried along, never shown.
    pub input_bytes: String,
    /// Long description, if the service gave one.
    pub description: Option<String>,
    /// Short description; reserved, never shown.
    pub description_short: Option<String>,
}

/// Mathematical model of a [`RawTxInput`].
pub struct RawTxView {
    pub chain_id: int,
    pub to_address: Seq<char>,
    pub input_bytes: Seq<char>,
    pub description: Option<Seq<char>>,
    pub description_short: Option<Seq<char>>,
}

impl View for RawTxInput {
    type V = RawTxView;

    open spec fn view(&self) -> RawTxView {
        RawTxView {
            chain_id: self.chain_id as int,
            to_address: self.to_address@,
            input_bytes: self.input_bytes@,
            description: self.description.deep_view(),
            description_short: self.description_short.deep_view(),
        }
    }
}

impl DeepView for RawTxInput {
    type V = RawTxView;

    open spec fn deep_view(&self) -> RawTxView {
        self@
    }
}

} // verus!
