use vstd::prelude::*;
use vstd::std_specs::convert::TryFromSpecImpl;

verus! {

/// The button with which the user closed a message box.
#[allow(non_camel_case_types)]
#[derive(Debug, Clone, Copy, PartialEq, Eq, Structural)]
pub enum MessageBoxResult {
    OK,
    CANCEL,
    ABORT,
    RETRY,
    IGNORE,
    YES,
    NO,
    TRYAGAIN,
    CONTINUE,
}

/// The text that accompanies a return code that names no button.
pub const INVALID_RETURN_MESSAGE: &'static str = "Invalid return value from MessageBoxA";

impl MessageBoxResult {
    /// The code by which the host reports this button.
    pub open spec fn spec_code(self) -> i32 {
        match self {
            MessageBoxResult::OK => 1,
            MessageBoxResult::CANCEL => 2,
            MessageBoxResult::ABORT => 3,
            MessageBoxResult::RETRY => 4,
            MessageBoxResult::IGNORE => 5,
            MessageBoxResult::YES => 6,
            MessageBoxResult::NO => 7,
            MessageBoxResult::TRYAGAIN => 10,
            MessageBoxResult::CONTINUE => 11,
        }
    }

    /// The code by which the host reports this button.
    #[verifier::when_used_as_spec(spec_code)]
    pub fn code(self) -> (r: i32)
        ensures
            r == self.spec_code(),
    {
        match self {
            MessageBoxResult::OK => 1,
            MessageBoxResult::CANCEL => 2,
            MessageBoxResult::ABORT => 3,
            MessageBoxResult::RETRY => 4,
            MessageBoxResult::IGNORE => 5,
            MessageBoxResult::YES => 6,
            MessageBoxResult::NO => 7,
            MessageBoxResult::TRYAGAIN => 10,
            MessageBoxResult::CONTINUE => 11,
        }
    }
}

/// The button that a return code names, if it names one.
pub open spec fn outcome_of(code: i32) -> Option<MessageBoxResult> {
    if code == 1 {
        Some(MessageBoxResult::OK)
    } else if code == 2 {
        Some(MessageBoxResult::CANCEL)
    } else if code == 3 {
        Some(MessageBoxResult::ABORT)
    } else if code == 4 {
        Some(MessageBoxResult::RETRY)
    } else if code == 5 {
        Some(MessageBoxResult::IGNORE)
    } else if code == 6 {
        Some(MessageBoxResult::YES)
    } else if code == 7 {
        Some(MessageBoxResult::NO)
    } else if code == 10 {
        Some(MessageBoxResult::TRYAGAIN)
    } else if code == 11 {
        Some(MessageBoxResult::CONTINUE)
    } else {
        None
    }
}

/// What translating a return code gives: the button it names, or the code
/// itself with a fixed message.
pub open spec fn translation_of(code: i32) -> Result<MessageBoxResult, (i32, &'static str)> {
    match outcome_of(code) {
        Some(o) => Ok(o),
        None => Err((code, INVALID_RETURN_MESSAGE)),
    }
}

impl TryFrom<i32> for MessageBoxResult {
    type Error = (i32, &'static str);

    fn try_from(value: i32) -> (r: Result<Self, Self::Error>)
        ensures
            r == translation_of(value),
    {
        match value {
            1 => Ok(MessageBoxResult::OK),
            2 => Ok(MessageBoxResult::CANCEL),
            3 => Ok(MessageBoxResult::ABORT),
            4 => Ok(MessageBoxResult::RETRY),
            5 => Ok(MessageBoxResult::IGNORE),
            6 => Ok(MessageBoxResult::YES),
            7 => Ok(MessageBoxResult::NO),
            10 => Ok(MessageBoxResult::TRYAGAIN),
            11 => Ok(MessageBoxResult::CONTINUE),
            _ => Err((value, INVALID_RETURN_MESSAGE)),
        }
    }
}

impl TryFromSpecImpl<i32> for MessageBoxResult {
    open spec fn obeys_try_from_spec() -> bool {
        true
    }

    open spec fn try_from_spec(v: i32) -> Result<Self, Self::Error> {
        translation_of(v)
    }
}

/// Every button is named by exactly its own code, and a code that names a
/// button is that button's code: the nine codes and the nine buttons
/// correspond one to one, with no overlap and no gap.
pub proof fn law_codes_match_buttons(o: MessageBoxResult, code: i32)
    ensures
        outcome_of(o.spec_code()) == Some(o),
        outcome_of(code) == Some(o) <==> code == o.spec_code(),
{
}

} // verus!
