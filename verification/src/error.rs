//! The failures that the pipeline tells apart.

use vstd::prelude::*;
use vstd::string::*;

verus! {

/// The standard library's I/O error, carried through unread.
#[verifier::external_type_specification]
#[verifier::external_body]
pub struct ExIoError(std::io::Error);

/// Every fallible operation of the library reports one of these. The text
/// carried by a variant says what went wrong; the variant says at which
/// layer, and so who recovers from it.
#[derive(Debug)]
pub enum AppError {
    /// The subscription transport could not be established.
    GrpcConnection(String),
    /// An established subscription failed while it was being consumed.
    GrpcStream(String),
    /// One write to the store failed.
    Database(String),
    /// One transaction's data does not fit the record.
    ParseError(String),
    /// The process was configured wrongly.
    Config(String),
    /// One request for a transaction's detail failed.
    SolanaClient(String),
    /// An I/O operation of the process failed.
    Io(std::io::Error),
}

/// `std::io::Error`'s `Display` text, of which nothing is claimed.
#[verifier::external_body]
fn io_error_text(e: &std::io::Error) -> (s: String) {
    e.to_string()
}

impl AppError {
    /// The words that introduce a variant's text when the error is shown.
    pub open spec fn label(&self) -> Seq<char> {
        match self {
            AppError::GrpcConnection(_) => "gRPC connection error: "@,
            AppError::GrpcStream(_) => "gRPC stream error: "@,
            AppError::Database(_) => "Database error: "@,
            AppError::ParseError(_) => "Transaction parsing error: "@,
            AppError::Config(_) => "Configuration error: "@,
            AppError::SolanaClient(_) => "Solana client error: "@,
            AppError::Io(_) => "I/O error: "@,
        }
    }

    /// The text that a variant carries, where it carries text.
    pub open spec fn detail(&self) -> Option<Seq<char>> {
        match self {
            AppError::GrpcConnection(m) => Some(m@),
            AppError::GrpcStream(m) => Some(m@),
            AppError::Database(m) => Some(m@),
            AppError::ParseError(m) => Some(m@),
            AppError::Config(m) => Some(m@),
            AppError::SolanaClient(m) => Some(m@),
            AppError::Io(_) => None,
        }
    }

    /// The error as one line of text: the variant's label, then its detail.
    /// For `Io` the detail is the text that the operating system's error
    /// gives of itself.
    pub fn to_string(&self) -> (s: String)
        ensures
            s@.len() >= self.label().len(),
            s@.subrange(0, self.label().len() as int) == self.label(),
            self.detail() matches Some(d) ==> s@ == self.label() + d,
    {
        match self {
            AppError::GrpcConnection(m) => String::from_str("gRPC connection error: ").concat(
                m.as_str(),
            ),
            AppError::GrpcStream(m) => String::from_str("gRPC stream error: ").concat(m.as_str()),
            AppError::Database(m) => String::from_str("Database error: ").concat(m.as_str()),
            AppError::ParseError(m) => String::from_str("Transaction parsing error: ").concat(
                m.as_str(),
            ),
            AppError::Config(m) => String::from_str("Configuration error: ").concat(m.as_str()),
            AppError::SolanaClient(m) => String::from_str("Solana client error: ").concat(
                m.as_str(),
            ),
            AppError::Io(e) => {
                let text = io_error_text(e);
                String::from_str("I/O error: ").concat(text.as_str())
            },
        }
    }
}

} // verus!
