use cash_mario::entry::{
    amount_step, height_step, parse_int, parse_size, read_amount, read_height, EntryError,
    ParseFailure, ReadStep,
};

#[test]
fn reader_rejects_zero_negative_text_and_empty() {
    assert_eq!(read_amount("0"), Err(EntryError::NotPositive));
    assert_eq!(read_amount("-5"), Err(EntryError::NotPositive));
    assert_eq!(read_amount("abc"), Err(EntryError::Parse(ParseFailure::InvalidDigit)));
    assert_eq!(read_amount(""), Err(EntryError::Parse(ParseFailure::Empty)));
    assert_eq!(read_amount("41"), Ok(41));

    assert_eq!(read_height("0"), Err(EntryError::NotPositive));
    assert_eq!(read_height("-5"), Err(EntryError::Parse(ParseFailure::InvalidDigit)));
    assert_eq!(read_height("abc"), Err(EntryError::Parse(ParseFailure::InvalidDigit)));
    assert_eq!(read_height(""), Err(EntryError::Parse(ParseFailure::Empty)));
    assert_eq!(read_height("41"), Ok(41));
}

#[test]
fn reader_retries_once_then_accepts() {
    let lines = ["abc\n", "7\n"];
    let mut rejections = Vec::new();
    let mut accepted = None;
    for line in lines.iter() {
        match height_step(Some(*line)) {
            ReadStep::Accept(v) => {
                accepted = Some(v);
                break;
            }
            ReadStep::Retry(reason) => rejections.push(reason.height_message()),
            ReadStep::Abort => panic!("input ended"),
        }
    }
    assert_eq!(accepted, Some(7));
    assert_eq!(
        rejections,
        vec!["Please enter a positive (non-zero and non-negative) integer."]
    );
}

#[test]
fn change_reader_retries_once_then_accepts() {
    let lines = ["0\n", "41\n"];
    let mut rejections = Vec::new();
    let mut accepted = None;
    for line in lines.iter() {
        match amount_step(Some(*line)) {
            ReadStep::Accept(v) => {
                accepted = Some(v);
                break;
            }
            ReadStep::Retry(reason) => rejections.push(reason.amount_message()),
            ReadStep::Abort => panic!("input ended"),
        }
    }
    assert_eq!(accepted, Some(41));
    assert_eq!(rejections, vec!["Please enter a positive, non-zero amount."]);
}

#[test]
fn reader_gives_up_when_input_ends() {
    assert_eq!(amount_step(None), ReadStep::Abort);
    assert_eq!(height_step(None), ReadStep::Abort);
}

#[test]
fn reader_ignores_surrounding_white_space() {
    assert_eq!(read_amount("  41\n"), Ok(41));
    assert_eq!(read_amount("\t7 \r\n"), Ok(7));
    assert_eq!(read_amount("\u{a0}12\u{3000}"), Ok(12));
    assert_eq!(read_amount(" \n"), Err(EntryError::Parse(ParseFailure::Empty)));
    assert_eq!(read_amount("1 2"), Err(EntryError::Parse(ParseFailure::InvalidDigit)));
    assert_eq!(read_height("  5\r\n"), Ok(5));
}

#[test]
fn reader_handles_signs_and_range() {
    assert_eq!(read_amount("+8"), Ok(8));
    assert_eq!(read_amount("-"), Err(EntryError::Parse(ParseFailure::InvalidDigit)));
    assert_eq!(read_amount("+"), Err(EntryError::Parse(ParseFailure::InvalidDigit)));
    assert_eq!(read_amount("2147483647"), Ok(2147483647));
    assert_eq!(read_amount("2147483648"), Err(EntryError::Parse(ParseFailure::TooLarge)));
    assert_eq!(read_amount("-2147483648"), Err(EntryError::NotPositive));
    assert_eq!(read_amount("-2147483649"), Err(EntryError::Parse(ParseFailure::TooSmall)));
    assert_eq!(read_amount("12a"), Err(EntryError::Parse(ParseFailure::InvalidDigit)));
    assert_eq!(read_amount("007"), Ok(7));
}

#[test]
fn height_reader_takes_the_usize_range() {
    assert_eq!(read_height("2147483648"), Ok(2147483648));
    assert_eq!(read_height("+9"), Ok(9));
    assert_eq!(read_height("+"), Err(EntryError::Parse(ParseFailure::InvalidDigit)));
    assert_eq!(read_height(&usize::MAX.to_string()), Ok(usize::MAX));
    let past = format!("{}0", usize::MAX);
    assert_eq!(read_height(&past), Err(EntryError::Parse(ParseFailure::TooLarge)));
}

#[test]
fn integers_parse_to_their_value() {
    assert_eq!(parse_int("-2147483648"), Ok(i32::MIN));
    assert_eq!(parse_int("2147483647"), Ok(i32::MAX));
    assert_eq!(parse_int("-0"), Ok(0));
    assert_eq!(parse_int("-42"), Ok(-42));
    assert_eq!(parse_int("99999999999"), Err(ParseFailure::TooLarge));
    assert_eq!(parse_int(" 1"), Err(ParseFailure::InvalidDigit));
    assert_eq!(parse_size("0"), Ok(0));
    assert_eq!(parse_size("-0"), Err(ParseFailure::InvalidDigit));
}

#[test]
fn the_first_problem_from_the_left_is_reported() {
    assert_eq!(parse_int("99999999999a"), Err(ParseFailure::TooLarge));
    assert_eq!(parse_int("-99999999999a"), Err(ParseFailure::TooSmall));
    assert_eq!(parse_int("9a99999999999"), Err(ParseFailure::InvalidDigit));
    let past = format!("{}0x", usize::MAX);
    assert_eq!(parse_size(&past), Err(ParseFailure::TooLarge));
    // Each outcome agrees with std's own parse.
    for text in ["99999999999a", "-99999999999a", "9a9", "+", "-", "", "+12", "-12", "2147483648"] {
        let ours = parse_int(text).ok();
        assert_eq!(ours, text.parse::<i32>().ok());
    }
}

#[test]
fn rejection_messages() {
    assert_eq!(
        EntryError::NotPositive.amount_message(),
        "Please enter a positive, non-zero amount."
    );
    assert_eq!(
        EntryError::Parse(ParseFailure::InvalidDigit).amount_message(),
        "Parse Error: invalid digit found in string"
    );
    assert_eq!(
        EntryError::Parse(ParseFailure::Empty).amount_message(),
        "Parse Error: cannot parse integer from empty string"
    );
    assert_eq!(
        EntryError::Parse(ParseFailure::TooLarge).amount_message(),
        "Parse Error: number too large to fit in target type"
    );
    assert_eq!(
        EntryError::Parse(ParseFailure::TooSmall).amount_message(),
        "Parse Error: number too small to fit in target type"
    );
    for reason in [EntryError::NotPositive, EntryError::Parse(ParseFailure::InvalidDigit)] {
        assert_eq!(
            reason.height_message(),
            "Please enter a positive (non-zero and non-negative) integer."
        );
    }
}
