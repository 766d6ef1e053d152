use mirage::trace::compute_indent;

#[test]
fn indent_repeats_the_pad_character() {
    assert_eq!(compute_indent(0), "");
    assert_eq!(compute_indent(3), "···");
    assert_eq!(compute_indent(3).chars().count(), 3);
}
