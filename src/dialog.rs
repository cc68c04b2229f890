use vstd::prelude::*;
use vstd::string::StringSliceAdditionalSpecFns;

use crate::error::MBError;
use crate::flags::{combine_styles, style_of, MessageBoxType};
use crate::marshal::{terminated, to_c_buffer};
use crate::outcome::{outcome_of, MessageBoxResult, INVALID_RETURN_MESSAGE};

verus! {

/// Everything the host's message box is called with: no owner window, the
/// terminated text and caption, and the style word.
pub struct DialogRequest {
    pub owner: usize,
    pub text: Vec<u8>,
    pub title: Vec<u8>,
    pub style: usize,
}

/// The handle that stands for "no owner window".
pub const NO_OWNER: usize = 0;

/// Checks and encodes what a message box will show. The text is checked
/// first: when it holds the null character the error carries the text, and
/// the caption is not looked at; otherwise a caption with the null character
/// is the error. When both are clean, the request holds their terminated
/// UTF-8 bytes and the OR of the options.
pub fn prepare_request<'a>(text: &'a str, title: &'a str, mb_type: &[MessageBoxType]) -> (r: Result<
    DialogRequest,
    MBError<&'a str>,
>)
    ensures
        r is Ok <==> !text@.contains('\0') && !title@.contains('\0'),
        text@.contains('\0') ==> (r matches Err(e) && e == MBError::InvalidString(text)),
        !text@.contains('\0') && title@.contains('\0') ==> (r matches Err(e) && e
            == MBError::InvalidString(title)),
        r matches Ok(req) ==> {
            &&& req.owner == NO_OWNER
            &&& req.text@ == terminated(text.spec_bytes())
            &&& req.title@ == terminated(title.spec_bytes())
            &&& req.style == style_of(mb_type@)
        },
{
    let text_buf = match to_c_buffer(text) {
        Some(b) => b,
        None => {
            return Err(MBError::InvalidString(text));
        },
    };
    let title_buf = match to_c_buffer(title) {
        Some(b) => b,
        None => {
            return Err(MBError::InvalidString(title));
        },
    };
    let style = combine_styles(mb_type);
    Ok(DialogRequest { owner: NO_OWNER, text: text_buf, title: title_buf, style })
}

/// Translates the code that the host returned into the button it names, or
/// into an error that carries the code when it names none.
pub fn interpret_return<T>(code: i32) -> (r: Result<MessageBoxResult, MBError<T>>)
    ensures
        match outcome_of(code) {
            Some(o) => r == Ok::<MessageBoxResult, MBError<T>>(o),
            None => r == Err::<MessageBoxResult, MBError<T>>(
                MBError::ErroneousReturnValue(code, INVALID_RETURN_MESSAGE),
            ),
        },
{
    match MessageBoxResult::try_from(code) {
        Ok(o) => Ok(o),
        Err((value, msg)) => Err(MBError::ErroneousReturnValue(value, msg)),
    }
}

} // verus!
