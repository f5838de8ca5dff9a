use gateway_supervisor::second_line;
use gateway_supervisor::trimmed;

#[test]
fn trimming_strips_both_ends() {
    assert_eq!(trimmed("  MacBookPro18,3\n"), "MacBookPro18,3");
    assert_eq!(trimmed("\t XPS 13 9310 \r\n"), "XPS 13 9310");
    assert_eq!(trimmed("no-edges"), "no-edges");
    assert_eq!(trimmed(""), "");
    assert_eq!(trimmed(" \t\r\n "), "");
    assert_eq!(trimmed("inner  space kept"), "inner  space kept");
}

#[test]
fn second_line_of_command_output() {
    assert_eq!(second_line("Model\r\nXPS 13 9310\r\n"), Some("XPS 13 9310".to_string()));
    assert_eq!(second_line("Model\nThinkPad X1\n"), Some("ThinkPad X1".to_string()));
    assert_eq!(second_line("a\nb"), Some("b".to_string()));
    assert_eq!(second_line("a\n\nc"), Some("".to_string()));
    assert_eq!(second_line("only one line"), None);
    assert_eq!(second_line("ends with newline\n"), None);
    assert_eq!(second_line(""), None);
}
