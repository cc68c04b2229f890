use msgbox::dialog::NO_OWNER;
use msgbox::outcome::INVALID_RETURN_MESSAGE;
use msgbox::{interpret_return, prepare_request, MBError, MessageBoxResult, MessageBoxType};

/// Runs the whole exchange against a host that always answers `code`,
/// counting the calls made to it.
fn show_with_host<'a>(
    text: &'a str,
    title: &'a str,
    types: &[MessageBoxType],
    code: i32,
    calls: &mut u32,
) -> Result<MessageBoxResult, MBError<&'a str>> {
    let request = prepare_request(text, title, types)?;
    assert_eq!(request.owner, NO_OWNER);
    *calls += 1;
    interpret_return(code)
}

#[test]
fn scenario_cancel_from_host() {
    let mut calls = 0;
    let r = show_with_host(
        "Hello",
        "Title",
        &[MessageBoxType::CANCEL_TRY_CONTINUE, MessageBoxType::ICON_INFORMATION],
        2,
        &mut calls,
    );
    assert!(matches!(r, Ok(MessageBoxResult::CANCEL)));
    assert_eq!(calls, 1);
}

#[test]
fn scenario_host_failure_code() {
    let mut calls = 0;
    let r = show_with_host("x", "y", &[], 0, &mut calls);
    assert!(matches!(r, Err(MBError::ErroneousReturnValue(0, _))));
    assert_eq!(calls, 1);
}

#[test]
fn scenario_invalid_text_makes_no_call() {
    let mut calls = 0;
    let r = show_with_host("bad\0text", "Title", &[], 1, &mut calls);
    assert!(matches!(r, Err(MBError::InvalidString("bad\0text"))));
    assert_eq!(calls, 0);
}

#[test]
fn invalid_title_is_reported() {
    let r = prepare_request("fine", "ti\0tle", &[]);
    assert!(matches!(r, Err(MBError::InvalidString("ti\0tle"))));
}

#[test]
fn text_is_checked_before_title() {
    let r = prepare_request("a\0", "\0b", &[]);
    assert!(matches!(r, Err(MBError::InvalidString("a\0"))));
}

#[test]
fn terminator_at_either_end_is_rejected() {
    assert!(prepare_request("\0abc", "t", &[]).is_err());
    assert!(prepare_request("abc\0", "t", &[]).is_err());
    assert!(prepare_request("\0", "t", &[]).is_err());
}

#[test]
fn request_holds_terminated_bytes_and_style() {
    let r = prepare_request(
        "Hello",
        "Title",
        &[
            MessageBoxType::CANCEL_TRY_CONTINUE,
            MessageBoxType::ICON_INFORMATION,
            MessageBoxType::TEXT_RTL,
            MessageBoxType::DEF_BUTTON3,
        ],
    )
    .unwrap();
    assert_eq!(r.owner, 0);
    assert_eq!(r.text, b"Hello\0".to_vec());
    assert_eq!(r.title, b"Title\0".to_vec());
    assert_eq!(r.style, 0x6 | 0x40 | 0x80000 | 0x200);
}

#[test]
fn empty_strings_are_accepted() {
    let r = prepare_request("", "", &[]).unwrap();
    assert_eq!(r.text, vec![0u8]);
    assert_eq!(r.title, vec![0u8]);
    assert_eq!(r.style, 0);
}

#[test]
fn non_ascii_text_is_encoded_as_utf8() {
    let r = prepare_request("héllo ✓ 𝄞", "Ω", &[]).unwrap();
    let mut expected = "héllo ✓ 𝄞".as_bytes().to_vec();
    expected.push(0);
    assert_eq!(r.text, expected);
    assert_eq!(r.title, vec![0xCE, 0xA9, 0]);
}

#[test]
fn buffer_round_trips() {
    for s in ["", "Hello", "héllo ✓ 𝄞", "multi\nline\ttext"] {
        let buf = msgbox::marshal::to_c_buffer(s).unwrap();
        let end = buf.iter().position(|&b| b == 0).unwrap();
        assert_eq!(end, buf.len() - 1);
        assert_eq!(std::str::from_utf8(&buf[..end]).unwrap(), s);
    }
}

#[test]
fn buffer_refuses_terminator() {
    assert!(msgbox::marshal::to_c_buffer("bad\0text").is_none());
}

#[test]
fn all_known_codes_translate() {
    let expected = [
        (1, MessageBoxResult::OK),
        (2, MessageBoxResult::CANCEL),
        (3, MessageBoxResult::ABORT),
        (4, MessageBoxResult::RETRY),
        (5, MessageBoxResult::IGNORE),
        (6, MessageBoxResult::YES),
        (7, MessageBoxResult::NO),
        (10, MessageBoxResult::TRYAGAIN),
        (11, MessageBoxResult::CONTINUE),
    ];
    for (code, outcome) in expected {
        let r: Result<MessageBoxResult, MBError<&str>> = interpret_return(code);
        assert_eq!(r.unwrap(), outcome);
        assert_eq!(MessageBoxResult::try_from(code).unwrap(), outcome);
        assert_eq!(outcome.code(), code);
    }
}

#[test]
fn unknown_codes_are_errors() {
    for code in [0, -1, 8, 9, 12, 999, i32::MIN, i32::MAX] {
        let r: Result<MessageBoxResult, MBError<&str>> = interpret_return(code);
        match r {
            Err(MBError::ErroneousReturnValue(c, msg)) => {
                assert_eq!(c, code);
                assert_eq!(msg, INVALID_RETURN_MESSAGE);
            }
            other => panic!("unexpected {:?}", other),
        }
        assert_eq!(
            MessageBoxResult::try_from(code).unwrap_err(),
            (code, "Invalid return value from MessageBoxA")
        );
    }
}

#[test]
fn style_is_order_independent() {
    let a = [MessageBoxType::YES_NO, MessageBoxType::ICON_QUESTION, MessageBoxType::TOPMOST];
    let b = [MessageBoxType::TOPMOST, MessageBoxType::YES_NO, MessageBoxType::ICON_QUESTION];
    assert_eq!(msgbox::flags::combine_styles(&a), msgbox::flags::combine_styles(&b));
    assert_eq!(msgbox::flags::combine_styles(&a), 0x4 | 0x20 | 0x40000);
}

#[test]
fn style_ignores_duplicates() {
    let a = [MessageBoxType::HELP, MessageBoxType::SYSTEM_MODAL, MessageBoxType::HELP];
    assert_eq!(msgbox::flags::combine_styles(&a), 0x5000);
}

#[test]
fn empty_style_is_zero() {
    assert_eq!(msgbox::flags::combine_styles(&[]), 0);
    assert_eq!(msgbox::flags::combine_styles(&[MessageBoxType::APPLICATION_MODAL]), 0);
}

#[test]
fn same_family_values_merge_by_or() {
    let a = [MessageBoxType::ICON_ERROR, MessageBoxType::ICON_QUESTION];
    assert_eq!(msgbox::flags::combine_styles(&a), 0x30);
}

#[test]
fn option_bits() {
    assert_eq!(MessageBoxType::OK_CANCEL.bits(), 0x1);
    assert_eq!(MessageBoxType::CANCEL_TRY_CONTINUE.bits(), 0x6);
    assert_eq!(MessageBoxType::DEF_BUTTON4.bits(), 0x300);
    assert_eq!(MessageBoxType::TASK_MODAL.bits(), 0x2000);
    assert_eq!(MessageBoxType::SERVICE_NOTIFICATION.bits(), 0x200000);
    assert_eq!(MessageBoxType::SET_FOREGROUND.bits(), 0x10000);
}

#[test]
fn describe_invalid_string() {
    let e: MBError<&str> = MBError::InvalidString("bad\0text");
    assert_eq!(e.describe(), "bad\0text");
}

#[test]
fn describe_return_value() {
    let r: Result<MessageBoxResult, MBError<&str>> = interpret_return(-42);
    assert_eq!(r.unwrap_err().describe(), "Invalid return value from MessageBoxA: -42");
    let r: Result<MessageBoxResult, MBError<&str>> = interpret_return(999);
    assert_eq!(r.unwrap_err().describe(), "Invalid return value from MessageBoxA: 999");
}
