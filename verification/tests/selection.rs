use sshm::selection::{classify, read_command, read_id, read_id_answer, Command, IdAnswer, Selection};

#[test]
fn classify_digits_select_a_profile() {
    assert_eq!(classify("42"), Selection::Connect(42));
}

#[test]
fn classify_trims_the_line() {
    assert_eq!(classify(" q "), Selection::Command(Command::Quit));
    assert_eq!(classify("  42\n"), Selection::Connect(42));
    assert_eq!(classify("\tc\r\n"), Selection::Command(Command::Create));
}

#[test]
fn classify_tells_upper_case_from_lower() {
    assert_eq!(classify("Q"), Selection::Unknown);
    assert_eq!(classify("C"), Selection::Unknown);
    assert_eq!(classify("U"), Selection::Unknown);
    assert_eq!(classify("D"), Selection::Unknown);
}

#[test]
fn classify_empty_line_is_unknown() {
    assert_eq!(classify(""), Selection::Unknown);
    assert_eq!(classify("   "), Selection::Unknown);
}

#[test]
fn classify_digits_with_a_letter_is_unknown() {
    assert_eq!(classify("12a"), Selection::Unknown);
    assert_eq!(classify("a12"), Selection::Unknown);
}

#[test]
fn classify_knows_the_four_commands() {
    assert_eq!(classify("c"), Selection::Command(Command::Create));
    assert_eq!(classify("u"), Selection::Command(Command::Update));
    assert_eq!(classify("d"), Selection::Command(Command::Delete));
    assert_eq!(classify("q"), Selection::Command(Command::Quit));
}

#[test]
fn classify_takes_no_sign_and_no_space_inside() {
    assert_eq!(classify("+5"), Selection::Unknown);
    assert_eq!(classify("-5"), Selection::Unknown);
    assert_eq!(classify("1 2"), Selection::Unknown);
    assert_eq!(classify("1.5"), Selection::Unknown);
}

#[test]
fn classify_takes_leading_zeros() {
    assert_eq!(classify("0"), Selection::Connect(0));
    assert_eq!(classify("007"), Selection::Connect(7));
}

#[test]
fn classify_number_beyond_every_id_is_unknown() {
    assert_eq!(classify("2147483647"), Selection::Connect(i32::MAX));
    assert_eq!(classify("2147483648"), Selection::Unknown);
    assert_eq!(classify("123456789012345678901234567890"), Selection::Unknown);
}

#[test]
fn classify_digits_of_other_scripts_are_unknown() {
    assert_eq!(classify("٣"), Selection::Unknown);
    assert_eq!(classify("４２"), Selection::Unknown);
    assert_eq!(classify("4٣"), Selection::Unknown);
}

#[test]
fn classify_longer_words_are_unknown() {
    assert_eq!(classify("quit"), Selection::Unknown);
    assert_eq!(classify("cc"), Selection::Unknown);
    assert_eq!(classify("q q"), Selection::Unknown);
    assert_eq!(classify("x"), Selection::Unknown);
}

#[test]
fn read_id_reads_digit_runs_only() {
    assert_eq!(read_id("1"), Some(1));
    assert_eq!(read_id("0012"), Some(12));
    assert_eq!(read_id(""), None);
    assert_eq!(read_id("1\n"), None);
    assert_eq!(read_id("one"), None);
    assert_eq!(read_id("١٢"), None);
}

#[test]
fn read_command_reads_one_letter() {
    assert_eq!(read_command("c"), Some(Command::Create));
    assert_eq!(read_command("u"), Some(Command::Update));
    assert_eq!(read_command("d"), Some(Command::Delete));
    assert_eq!(read_command("q"), Some(Command::Quit));
    assert_eq!(read_command(""), None);
    assert_eq!(read_command(" q"), None);
    assert_eq!(read_command("é"), None);
}

#[test]
fn id_answer_is_an_id_or_gives_up() {
    assert_eq!(read_id_answer("3"), IdAnswer::Id(3));
    assert_eq!(read_id_answer(" 3 "), IdAnswer::Id(3));
    assert_eq!(read_id_answer(""), IdAnswer::Abandoned);
    assert_eq!(read_id_answer("x"), IdAnswer::Abandoned);
    assert_eq!(read_id_answer("3x"), IdAnswer::Abandoned);
    assert_eq!(read_id_answer("-3"), IdAnswer::Abandoned);
    assert_eq!(read_id_answer("4294967296"), IdAnswer::Abandoned);
}
