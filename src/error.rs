//! The errors a query can end in.

use vstd::prelude::*;
use crate::json::{Json, JsonModel};

verus! {

/// Why a query failed.
#[derive(Debug, PartialEq, Eq)]
pub enum Error {
    /// The request could not be sent.
    Transport(String),
    /// The service answered with this non-success HTTP status.
    Status(u16),
    /// The answer's body could not be read in full.
    BodyRead(String),
    /// The body is not valid JSON; the parser's message.
    Parse(String),
    /// A field is missing (`value` is `None`) or holds a value of the wrong
    /// type (that value). A string element of a top-level listing has no
    /// field of its own: there `field` is empty.
    Schema { field: String, value: Option<Json> },
    /// The top-level value, or an element of a top-level array, is not of
    /// the shape the endpoint answers with.
    Shape(Json),
}

/// The model of an `Error`; a parser's message is left out.
pub ghost enum ErrorModel {
    Transport(Seq<char>),
    Status(u16),
    BodyRead(Seq<char>),
    Parse,
    Schema { field: Seq<char>, value: Option<JsonModel> },
    Shape(JsonModel),
}

impl View for Error {
    type V = ErrorModel;

    open spec fn view(&self) -> ErrorModel {
        match self {
            Error::Transport(m) => ErrorModel::Transport(m@),
            Error::Status(code) => ErrorModel::Status(*code),
            Error::BodyRead(m) => ErrorModel::BodyRead(m@),
            Error::Parse(_) => ErrorModel::Parse,
            Error::Schema { field, value } => ErrorModel::Schema {
                field: field@,
                value: match value {
                    Some(v) => Some(v@),
                    None => None,
                },
            },
            Error::Shape(v) => ErrorModel::Shape(v@),
        }
    }
}

} // verus!
