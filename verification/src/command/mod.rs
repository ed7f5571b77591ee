//! Command utilities.

pub mod chat;

use vstd::prelude::*;
use crate::service::{Request, RequestView};

verus! {

/// The flag of a message that only the user who caused it can see.
pub const EPHEMERAL: u64 = 64;

/// A button under a message that opens a link.
#[derive(Debug, PartialEq)]
pub struct Button {
    pub label: String,
    pub url: String,
}

/// The message that answers an interaction.
#[derive(Debug, PartialEq)]
pub struct CallbackData {
    /// Whether the mentions in the content are kept from notifying anyone.
    pub mentions_muted: bool,
    /// One row of link buttons, for a message that has components.
    pub components: Option<Vec<Button>>,
    pub content: Option<String>,
    /// The flags of the message, as a set of bits.
    pub flags: Option<u64>,
}

/// What a button says.
pub struct ButtonView {
    pub label: Seq<char>,
    pub url: Seq<char>,
}

impl View for Button {
    type V = ButtonView;

    open spec fn view(&self) -> ButtonView {
        ButtonView { label: self.label@, url: self.url@ }
    }
}

/// What a message says.
pub struct CallbackDataView {
    pub mentions_muted: bool,
    pub components: Option<Seq<ButtonView>>,
    pub content: Option<Seq<char>>,
    pub flags: Option<u64>,
}

/// The characters of a text that may be missing.
pub open spec fn text_view(text: Option<String>) -> Option<Seq<char>> {
    match text {
        Some(text) => Some(text@),
        None => None,
    }
}

impl View for CallbackData {
    type V = CallbackDataView;

    open spec fn view(&self) -> CallbackDataView {
        CallbackDataView {
            mentions_muted: self.mentions_muted,
            components: match self.components {
                Some(row) => Some(row@.map_values(|button: Button| button@)),
                None => None,
            },
            content: text_view(self.content),
            flags: self.flags,
        }
    }
}

/// Whether a response is the first answer to an interaction or follows one.
#[derive(Clone, Copy, Debug, PartialEq, Eq, Structural)]
pub enum ResponseType {
    Initial,
    Followup,
}

/// A response to an interaction.
#[derive(Debug, PartialEq)]
pub struct Response {
    pub id: u64,
    pub token: String,
    pub ty: ResponseType,
    pub data: CallbackData,
}

/// What a response says, and to which interaction.
pub struct ResponseView {
    pub id: u64,
    pub token: Seq<char>,
    pub ty: ResponseType,
    pub data: CallbackDataView,
}

impl View for Response {
    type V = ResponseView;

    open spec fn view(&self) -> ResponseView {
        ResponseView { id: self.id, token: self.token@, ty: self.ty, data: self.data@ }
    }
}

/// Whether a set of message flags holds the ephemeral one, for a message that
/// has flags.
pub open spec fn spec_ephemeral(flags: Option<u64>) -> Option<bool> {
    match flags {
        Some(flags) => Some(flags & EPHEMERAL != 0),
        None => None,
    }
}

impl ResponseView {
    /// An empty message that notifies nobody.
    pub open spec fn new(id: u64, token: Seq<char>, ty: ResponseType) -> ResponseView {
        ResponseView {
            id,
            token,
            ty,
            data: CallbackDataView { mentions_muted: true, components: None, content: None, flags: None },
        }
    }

    /// The response with its content set.
    pub open spec fn content(self, content: Seq<char>) -> ResponseView {
        ResponseView { data: CallbackDataView { content: Some(content), ..self.data }, ..self }
    }

    /// The response with the ephemeral flag among its flags.
    pub open spec fn ephemeral(self) -> ResponseView {
        ResponseView {
            data: CallbackDataView {
                flags: Some(
                    match self.data.flags {
                        Some(flags) => flags | EPHEMERAL,
                        None => EPHEMERAL,
                    },
                ),
                ..self.data
            },
            ..self
        }
    }

    /// The outside call that sends a response. A first answer carries the
    /// whole message. A follow-up carries the content and, where flags were
    /// set, whether the ephemeral one is among them.
    pub open spec fn exec(self) -> RequestView {
        match self.ty {
            ResponseType::Initial => RequestView::Callback { id: self.id, token: self.token, data: self.data },
            ResponseType::Followup => RequestView::Followup {
                token: self.token,
                content: self.data.content,
                ephemeral: spec_ephemeral(self.data.flags),
            },
        }
    }
}

impl Response {
    /// Creates a new response: an empty message that notifies nobody.
    pub fn new(id: u64, token: &str, ty: ResponseType) -> (response: Response)
        ensures
            response@ == ResponseView::new(id, token@, ty),
    {
        Response {
            id,
            token: String::from_str(token),
            ty,
            data: CallbackData { mentions_muted: true, components: None, content: None, flags: None },
        }
    }

    /// Sets the response's content.
    pub fn content(self, content: String) -> (response: Response)
        ensures
            response@ == self@.content(content@),
    {
        let mut response = self;
        response.data.content = Some(content);
        response
    }

    /// Marks the response as ephemeral.
    pub fn ephemeral(self) -> (response: Response)
        ensures
            response@ == self@.ephemeral(),
    {
        let mut response = self;
        let flags: u64 = match response.data.flags {
            Some(flags) => flags | EPHEMERAL,
            None => EPHEMERAL,
        };
        response.data.flags = Some(flags);
        response
    }

    /// The outside call that sends the response.
    pub fn exec(self) -> (request: Request)
        ensures
            request@ == self@.exec(),
    {
        match self.ty {
            ResponseType::Initial => self.exec_initial(),
            ResponseType::Followup => self.exec_followup(),
        }
    }

    fn exec_initial(self) -> (request: Request)
        ensures
            request@ == (RequestView::Callback { id: self.id, token: self.token@, data: self.data@ }),
    {
        Request::Callback { id: self.id, token: self.token, data: self.data }
    }

    fn exec_followup(self) -> (request: Request)
        ensures
            request@ == (RequestView::Followup {
                token: self.token@,
                content: text_view(self.data.content),
                ephemeral: spec_ephemeral(self.data.flags),
            }),
    {
        let ephemeral = match self.data.flags {
            Some(flags) => Some(flags & EPHEMERAL != 0),
            None => None,
        };
        Request::Followup { token: self.token, content: self.data.content, ephemeral }
    }
}

/// A response that was marked ephemeral is sent as one, whatever flags it had.
pub proof fn ephemeral_is_sent_ephemeral(response: ResponseView)
    ensures
        spec_ephemeral(response.ephemeral().data.flags) == Some(true),
{
    let flags = response.data.flags;
    match flags {
        Some(flags) => {
            assert((flags | 64) & 64 != 0) by (bit_vector);
        },
        None => {
            assert(64u64 & 64 != 0) by (bit_vector);
        },
    }
}

} // verus!
