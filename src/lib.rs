//! A checked front end for a host's modal message box: it validates and
//! encodes the text, caption and style of a dialog, and translates the code
//! that the host returns into a typed outcome or error.

pub mod dialog;
pub mod error;
pub mod flags;
pub mod marshal;
pub mod outcome;

pub use dialog::{interpret_return, prepare_request, DialogRequest};
pub use error::MBError;
pub use flags::MessageBoxType;
pub use outcome::MessageBoxResult;
