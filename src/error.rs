use vstd::prelude::*;

verus! {

/// Every failure of the crawl, with the context needed to diagnose it.
#[derive(Debug, Clone)]
pub enum Error {
    CommandError { cmd: String, message: String },
    ElementError { selector: String },
    AttributeError { selector: String, attr: String },
    ClientBuildError,
    ProxyError,
    EpubBuildError,
    ChapterError,
    RequestError { url: String, message: String },
    SanitizeError { pattern: String },
    Error { message: String },
}

/// The text that describes an error to a person.
pub open spec fn message_of(e: Error) -> Seq<char> {
    match e {
        Error::CommandError { cmd, message } =>
            "Failed to run command: '"@ + cmd@ + "'. Message: '"@ + message@ + "'"@,
        Error::ElementError { selector } => "Failed to find element: '"@ + selector@ + "'"@,
        Error::AttributeError { selector, attr } =>
            "Failed to retrieve attribute: '"@ + attr@ + "' from selector: '"@ + selector@ + "'."@,
        Error::ClientBuildError => "Failed to build http client!"@,
        Error::ProxyError => "Failed to parse proxy url!"@,
        Error::EpubBuildError => "Failed to build epub!"@,
        Error::ChapterError => "Failed to write chapter!"@,
        Error::RequestError { url, message } =>
            "Failed to url: '"@ + url@ + "'. Message: '"@ + message@ + "'"@,
        Error::SanitizeError { pattern } =>
            "Failed to build the exclusion pattern: '"@ + pattern@ + "'"@,
        Error::Error { message } => "Error: "@ + message@,
    }
}

impl Error {
    /// The text that describes this error to a person.
    pub fn message(&self) -> (r: String)
        ensures
            r@ == message_of(*self),
    {
        match self {
            Error::CommandError { cmd, message } => {
                let r = String::from_str("Failed to run command: '");
                let r = r.concat(cmd.as_str());
                let r = r.concat("'. Message: '");
                let r = r.concat(message.as_str());
                r.concat("'")
            },
            Error::ElementError { selector } => {
                let r = String::from_str("Failed to find element: '");
                let r = r.concat(selector.as_str());
                r.concat("'")
            },
            Error::AttributeError { selector, attr } => {
                let r = String::from_str("Failed to retrieve attribute: '");
                let r = r.concat(attr.as_str());
                let r = r.concat("' from selector: '");
                let r = r.concat(selector.as_str());
                r.concat("'.")
            },
            Error::ClientBuildError => String::from_str("Failed to build http client!"),
            Error::ProxyError => String::from_str("Failed to parse proxy url!"),
            Error::EpubBuildError => String::from_str("Failed to build epub!"),
            Error::ChapterError => String::from_str("Failed to write chapter!"),
            Error::RequestError { url, message } => {
                let r = String::from_str("Failed to url: '");
                let r = r.concat(url.as_str());
                let r = r.concat("'. Message: '");
                let r = r.concat(message.as_str());
                r.concat("'")
            },
            Error::SanitizeError { pattern } => {
                let r = String::from_str("Failed to build the exclusion pattern: '");
                let r = r.concat(pattern.as_str());
                r.concat("'")
            },
            Error::Error { message } => {
                let r = String::from_str("Error: ");
                r.concat(message.as_str())
            },
        }
    }
}

} // verus!
