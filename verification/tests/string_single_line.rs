use lib::templates::rendering_helpers::string_single_line::converted_to_single_line;

#[test]
fn test_single_line() {
    assert_eq!(converted_to_single_line("hello"), "hello");
}

#[test]
fn test_multi_line() {
    assert_eq!(converted_to_single_line("hello\n  world\n  foo"), "hello world foo");
}

#[test]
fn test_empty() {
    assert_eq!(converted_to_single_line(""), "");
}

#[test]
fn test_with_leading_trailing_whitespace() {
    assert_eq!(converted_to_single_line("  hello  \n  world  "), "hello world");
}

#[test]
fn single_line_crlf_and_blank_lines() {
    assert_eq!(converted_to_single_line("a\r\n\r\n b \n"), "a  b");
    assert!(!converted_to_single_line("x\ny\n\nz").contains('\n'));
}
