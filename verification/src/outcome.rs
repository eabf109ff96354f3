//! What a worker hands back when a request succeeds.

use vstd::prelude::*;
use serde_json::Value;
use crate::json::{error_message, json_parse, json_text, parse_value};
use crate::rejection::{io_failure, Rejection, RejectionView};

verus! {

/// The single result item of a read.
#[derive(Debug, PartialEq)]
pub enum Item {
    /// The file's text as it was read, reported under the key `content`.
    Content(String),
    /// The file's text parsed as JSON, reported under the key `object`.
    Object(Value),
}

/// The mathematical value of an [`Item`]: the text read, or the compact JSON
/// text of the parsed value.
pub enum ItemView {
    Content(Seq<char>),
    Object(Seq<char>),
}

impl View for Item {
    type V = ItemView;

    open spec fn view(&self) -> ItemView {
        match self {
            Item::Content(text) => ItemView::Content(text@),
            Item::Object(value) => ItemView::Object(json_text(*value)),
        }
    }
}

/// The terminal success of a request.
#[derive(Debug, PartialEq)]
pub enum Realize {
    /// One item is produced and no more will follow.
    OneItemAndDone(Item),
    /// Nothing is produced: an acknowledgement only.
    Done,
}

/// The mathematical value of a [`Realize`].
pub enum RealizeView {
    OneItemAndDone(ItemView),
    Done,
}

impl View for Realize {
    type V = RealizeView;

    open spec fn view(&self) -> RealizeView {
        match self {
            Realize::OneItemAndDone(item) => RealizeView::OneItemAndDone(item@),
            Realize::Done => RealizeView::Done,
        }
    }
}

/// The item that a read produces from the text `data` of a file: the text
/// itself, or, where the worker converts, the JSON value that the text
/// denotes; text that is not JSON is a failed read.
pub open spec fn item_of(convert: bool, data: Seq<char>) -> Result<ItemView, RejectionView> {
    if convert {
        match json_parse(data) {
            Ok(text) => Ok(ItemView::Object(text)),
            Err(message) => Err(io_failure(message)),
        }
    } else {
        Ok(ItemView::Content(data))
    }
}

impl Item {
    /// The key under which the item is reported to the caller.
    pub fn key(&self) -> (key: &'static str)
        ensures
            key@ == (match self {
                Item::Content(_) => "content"@,
                Item::Object(_) => "object"@,
            }),
    {
        match self {
            Item::Content(_) => "content",
            Item::Object(_) => "object",
        }
    }

    /// The item for an already parsed file: the parsed value, or the failed
    /// read that carries the parse error's message.
    pub fn from_parsed(parsed: Result<Value, String>) -> (item: Result<Item, Rejection>)
        ensures
            match parsed {
                Ok(value) => item == Ok::<Item, Rejection>(Item::Object(value)),
                Err(message) => item matches Err(rejection) && rejection@ == io_failure(message@),
            },
    {
        match parsed {
            Ok(value) => Ok(Item::Object(value)),
            Err(message) => Err(Rejection::io(message)),
        }
    }

    /// Parses the text of a file as JSON.
    pub fn decode(data: &str) -> (item: Result<Item, Rejection>)
        ensures
            match item_of(true, data@) {
                Ok(expected) => item matches Ok(parsed) && parsed@ == expected,
                Err(expected) => item matches Err(rejection) && rejection@ == expected,
            },
    {
        let parsed = match parse_value(data) {
            Ok(value) => Ok(value),
            Err(error) => Err(error_message(&error)),
        };
        Item::from_parsed(parsed)
    }

    /// The item that a read produces from the text of a file.
    pub fn read(convert: bool, data: String) -> (item: Result<Item, Rejection>)
        ensures
            match item_of(convert, data@) {
                Ok(expected) => item matches Ok(produced) && produced@ == expected,
                Err(expected) => item matches Err(rejection) && rejection@ == expected,
            },
    {
        if convert {
            Item::decode(data.as_str())
        } else {
            Ok(Item::Content(data))
        }
    }
}

} // verus!
