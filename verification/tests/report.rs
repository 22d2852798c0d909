use ansi_term::Colour;
use svm::report_error;

#[test]
fn the_error_line_is_tagged_and_red() {
    assert_eq!(
        report_error("Path \"x.bin\" does not exist!"),
        "\x1B[1;31m[ERROR]\x1B[0m \x1B[31mPath \"x.bin\" does not exist!\x1B[0m"
    );
}

#[test]
fn the_error_line_of_an_empty_message() {
    assert_eq!(report_error(""), "\x1B[1;31m[ERROR]\x1B[0m \x1B[31m\x1B[0m");
}

#[test]
fn the_error_line_is_what_the_terminal_library_paints() {
    let message = "File \"rom.bin\" must be exactly 65535 (0xFFFF) bytes!";
    let expected = format!(
        "{} {}",
        Colour::Red.bold().paint("[ERROR]"),
        Colour::Red.paint(message)
    );
    assert_eq!(report_error(message), expected);
}
