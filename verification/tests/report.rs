use image_builder::report::{decimal, loaded_line, valid_line};

#[test]
fn decimal_of_single_digits() {
    assert_eq!(decimal(0), "0");
    assert_eq!(decimal(7), "7");
    assert_eq!(decimal(9), "9");
}

#[test]
fn decimal_of_longer_numbers() {
    assert_eq!(decimal(10), "10");
    assert_eq!(decimal(11), "11");
    assert_eq!(decimal(1024), "1024");
    assert_eq!(decimal(524_288), "524288");
    assert_eq!(decimal(1_234_567_890), "1234567890");
    assert_eq!(decimal(u64::MAX), "18446744073709551615");
}

#[test]
fn decimal_agrees_with_std() {
    let mut n: u64 = 1;
    while n < u64::MAX / 7 {
        assert_eq!(decimal(n), n.to_string());
        assert_eq!(decimal(n - 1), (n - 1).to_string());
        n = n * 7 + 3;
    }
}

#[test]
fn loaded_line_names_file_path_and_bytes() {
    assert_eq!(
        loaded_line("a.txt", "images/a.txt", 11),
        "loaded a.txt file from images/a.txt(11 bytes)"
    );
    assert_eq!(loaded_line("b.bin", "images/b.bin", 0), "loaded b.bin file from images/b.bin(0 bytes)");
}

#[test]
fn loaded_line_keeps_text_as_it_is() {
    assert_eq!(loaded_line("", "", 5), "loaded  file from (5 bytes)");
    assert_eq!(
        loaded_line("né e", "/tmp/né e", 1025),
        "loaded né e file from /tmp/né e(1025 bytes)"
    );
}

#[test]
fn valid_line_names_the_target() {
    assert_eq!(valid_line("out/user-fs.img"), "block file out/user-fs.img is valid!");
    assert_eq!(valid_line(""), "block file  is valid!");
}
