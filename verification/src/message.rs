//! Messages emitted by a reducer, together with their builder methods.

use vstd::prelude::*;

verus! {

/// The reserved tag value that asks downstream vertices to drop a message.
/// The core forwards it verbatim and never interprets it.
pub open spec fn drop_tag() -> Seq<char> {
    "U+005C__DROP__"@
}

/// Message is the response from the user's reducer.
#[derive(Debug, PartialEq)]
pub struct Message {
    /// Keys are a collection of strings which will be passed on to the next
    /// vertex as is.  It can be an empty collection.
    pub keys: Option<Vec<String>>,
    /// Value is the value passed to the next vertex.
    pub value: Vec<u8>,
    /// Tags are used for conditional forwarding downstream.
    pub tags: Option<Vec<String>>,
}

/// The spec-level shape of a [`Message`].
pub struct MessageView {
    pub keys: Option<Seq<Seq<char>>>,
    pub value: Seq<u8>,
    pub tags: Option<Seq<Seq<char>>>,
}

impl View for Message {
    type V = MessageView;

    open spec fn view(&self) -> MessageView {
        MessageView {
            keys: self.keys.deep_view(),
            value: self.value@,
            tags: self.tags.deep_view(),
        }
    }
}

impl DeepView for Message {
    type V = MessageView;

    open spec fn deep_view(&self) -> MessageView {
        self.view()
    }
}

impl Message {
    /// Creates a new message with the specified value and no keys or tags.
    pub fn new(value: Vec<u8>) -> (r: Message)
        ensures
            r.keys is None,
            r.tags is None,
            r.value@ == value@,
    {
        Message { value, keys: None, tags: None }
    }

    /// Marks a message to be dropped downstream: an empty value carrying
    /// only the reserved drop tag.
    pub fn message_to_drop() -> (r: Message)
        ensures
            r.keys is None,
            r.value@ == Seq::<u8>::empty(),
            r.tags matches Some(tags) && tags.deep_view() == seq![drop_tag()],
    {
        let tag = "U+005C__DROP__".to_owned();
        let tags = vec![tag];
        proof {
            assert(tags.deep_view() =~= seq![drop_tag()]);
        }
        Message { keys: None, value: Vec::new(), tags: Some(tags) }
    }

    /// Sets or replaces the keys associated with this message.
    pub fn keys(self, keys: Vec<String>) -> (r: Message)
        ensures
            r.keys == Some(keys),
            r.value == self.value,
            r.tags == self.tags,
    {
        Message { keys: Some(keys), ..self }
    }

    /// Sets or replaces the tags associated with this message.
    pub fn tags(self, tags: Vec<String>) -> (r: Message)
        ensures
            r.tags == Some(tags),
            r.keys == self.keys,
            r.value == self.value,
    {
        Message { tags: Some(tags), ..self }
    }

    /// Replaces the value of the message.
    pub fn value(self, value: Vec<u8>) -> (r: Message)
        ensures
            r.value == value,
            r.keys == self.keys,
            r.tags == self.tags,
    {
        Message { value, ..self }
    }
}

} // verus!
