//! Context documents: which formats can be read, told by a file's
//! extension.

use crate::text::same_text;
use vstd::prelude::*;

verus! {

/// How the text of a context document is had from its bytes.
#[derive(Clone, Copy, Debug, PartialEq, Eq, Structural)]
pub enum ContextFormat {
    /// The file is its text.
    PlainText,
    /// The text is extracted from the pages of a PDF document.
    Pdf,
}

/// Why a file cannot serve as a context document.
#[derive(Debug)]
pub enum ContextFileError {
    /// The path has no extension.
    NoExtension,
    /// The extension is not text.
    ExtensionNotText,
    /// No format goes by this extension.
    Unsupported(String),
}

/// A [`ContextFileError`] with its text as a sequence of characters.
pub enum ContextFileErrorView {
    NoExtension,
    ExtensionNotText,
    Unsupported(Seq<char>),
}

impl View for ContextFileError {
    type V = ContextFileErrorView;

    open spec fn view(&self) -> ContextFileErrorView {
        match self {
            ContextFileError::NoExtension => ContextFileErrorView::NoExtension,
            ContextFileError::ExtensionNotText => ContextFileErrorView::ExtensionNotText,
            ContextFileError::Unsupported(extension) => ContextFileErrorView::Unsupported(
                extension@,
            ),
        }
    }
}

impl ContextFileErrorView {
    /// The message that the host is shown for this failure.
    pub open spec fn message(self) -> Seq<char> {
        match self {
            ContextFileErrorView::NoExtension => "Could not determine file extension"@,
            ContextFileErrorView::ExtensionNotText => "Could not convert file extension to string"@,
            ContextFileErrorView::Unsupported(extension) => "Unsupported file extension "@
                + extension,
        }
    }
}

impl ContextFileError {
    /// The message that the host is shown for this failure.
    pub fn message(&self) -> (message: String)
        ensures
            message@ == self@.message(),
    {
        match self {
            ContextFileError::NoExtension => String::from_str("Could not determine file extension"),
            ContextFileError::ExtensionNotText => String::from_str(
                "Could not convert file extension to string",
            ),
            ContextFileError::Unsupported(extension) => {
                let mut message = String::from_str("Unsupported file extension ");
                message.append(extension.as_str());
                message
            },
        }
    }
}

/// The format that goes by a path's extension. The outer `None` stands for
/// a path without an extension, the inner one for an extension that is not
/// text.
pub open spec fn format_of(extension: Option<Option<Seq<char>>>) -> Result<
    ContextFormat,
    ContextFileErrorView,
> {
    match extension {
        None => Err(ContextFileErrorView::NoExtension),
        Some(None) => Err(ContextFileErrorView::ExtensionNotText),
        Some(Some(extension)) => if extension == "txt"@ {
            Ok(ContextFormat::PlainText)
        } else if extension == "pdf"@ {
            Ok(ContextFormat::Pdf)
        } else {
            Err(ContextFileErrorView::Unsupported(extension))
        },
    }
}

/// The extension as sequences of characters.
pub open spec fn extension_view(extension: Option<Option<&str>>) -> Option<Option<Seq<char>>> {
    match extension {
        None => None,
        Some(None) => Some(None),
        Some(Some(extension)) => Some(Some(extension@)),
    }
}

/// Tells from a path's extension how the document is read: `txt` is plain
/// text, `pdf` a PDF document, and nothing else is read.
pub fn context_format(extension: Option<Option<&str>>) -> (format: Result<
    ContextFormat,
    ContextFileError,
>)
    ensures
        match format_of(extension_view(extension)) {
            Ok(known) => format == Ok::<ContextFormat, ContextFileError>(known),
            Err(error) => format matches Err(failure) && failure@ == error,
        },
{
    match extension {
        None => Err(ContextFileError::NoExtension),
        Some(None) => Err(ContextFileError::ExtensionNotText),
        Some(Some(extension)) => {
            if same_text(extension, "txt") {
                Ok(ContextFormat::PlainText)
            } else if same_text(extension, "pdf") {
                Ok(ContextFormat::Pdf)
            } else {
                Err(ContextFileError::Unsupported(String::from_str(extension)))
            }
        },
    }
}

} // verus!
