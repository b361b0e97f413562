//! The library's error type.
use vstd::prelude::*;

verus! {

/// Errors of the agent. A database failure and any other failure carry the
/// text that describes them.
#[derive(Clone, Debug)]
pub enum Error {
    Db(String),
    Anthropic(String),
    Connector { connector: String, message: String },
    Context(String),
    Config(String),
    Other(String),
}

/// The text that describes an error, as it is displayed.
pub open spec fn error_text(e: Error) -> Seq<char> {
    match e {
        Error::Db(m) => "database: "@ + m@,
        Error::Anthropic(m) => "anthropic api: "@ + m@,
        Error::Connector { connector, message } => "connector("@ + connector@ + "): "@ + message@,
        Error::Context(m) => "context engine: "@ + m@,
        Error::Config(m) => "config: "@ + m@,
        Error::Other(m) => m@,
    }
}

impl Error {
    /// The text that describes this error.
    pub fn message(&self) -> (r: String)
        ensures
            r@ == error_text(*self),
    {
        match self {
            Error::Db(m) => {
                let mut r = "database: ".to_owned();
                r.append(m.as_str());
                r
            },
            Error::Anthropic(m) => {
                let mut r = "anthropic api: ".to_owned();
                r.append(m.as_str());
                r
            },
            Error::Connector { connector, message } => {
                let mut r = "connector(".to_owned();
                r.append(connector.as_str());
                r.append("): ");
                r.append(message.as_str());
                r
            },
            Error::Context(m) => {
                let mut r = "context engine: ".to_owned();
                r.append(m.as_str());
                r
            },
            Error::Config(m) => {
                let mut r = "config: ".to_owned();
                r.append(m.as_str());
                r
            },
            Error::Other(m) => m.clone(),
        }
    }

    /// A connector error.
    pub fn connector(connector: &str, message: String) -> (r: Error)
        ensures
            r matches Error::Connector { connector: c, message: m } && c@ == connector@ && m@
                == message@,
    {
        Error::Connector { connector: connector.to_owned(), message }
    }
}

} // verus!
