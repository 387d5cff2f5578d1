use tinytickets_backend::text::{decimal, is_whitespace, sorts_before, split, trim};

#[test]
fn whitespace_agrees_with_std_on_every_char() {
    let mut code: u32 = 0;
    while code <= 0x10FFFF {
        if let Some(c) = char::from_u32(code) {
            assert_eq!(is_whitespace(c), c.is_whitespace(), "U+{:04X}", code);
        }
        code += 1;
    }
}

#[test]
fn trim_removes_surrounding_whitespace_only() {
    assert_eq!(trim("  paper jam \t\n"), "paper jam");
    assert_eq!(trim("a  b"), "a  b");
    assert_eq!(trim(""), "");
    assert_eq!(trim(" \u{3000}\u{a0} "), "");
    assert_eq!(trim("\u{2003}é x\u{85}"), "é x");
}

#[test]
fn trim_agrees_with_std() {
    let samples = [
        "", " ", "x", " x", "x ", " x y ", "\n\tMy Ticket - 1\r\n", "\u{feff}x", "\u{180e}x\u{180e}",
        "  \u{1680}a\u{2028}b\u{2029}  ",
    ];
    for s in samples {
        assert_eq!(trim(s), s.trim());
    }
}

#[test]
fn trim_is_idempotent() {
    let once = trim("  Floor 2  ");
    assert_eq!(trim(&once), once);
}

#[test]
fn split_keeps_empty_pieces() {
    assert_eq!(split("a,b", ','), vec!["a".to_string(), "b".to_string()]);
    assert_eq!(split("", ','), vec!["".to_string()]);
    assert_eq!(split(",", ','), vec!["".to_string(), "".to_string()]);
    assert_eq!(split("a,,b,", ','), vec!["a", "", "b", ""]);
    assert_eq!(split("no separator", ','), vec!["no separator"]);
}

#[test]
fn split_agrees_with_std() {
    let samples = ["", ",", "a", "a,b,c", ",a,", "é,ü,,", "a@x.com, b@y.org"];
    for s in samples {
        let expected: Vec<String> = s.split(',').map(String::from).collect();
        assert_eq!(split(s, ','), expected);
    }
}

#[test]
fn decimal_writes_integers() {
    assert_eq!(decimal(0), "0");
    assert_eq!(decimal(7), "7");
    assert_eq!(decimal(10), "10");
    assert_eq!(decimal(1280), "1280");
    assert_eq!(decimal(-1), "-1");
    assert_eq!(decimal(-305), "-305");
    assert_eq!(decimal(i32::MAX), "2147483647");
    assert_eq!(decimal(i32::MIN), "-2147483648");
}

#[test]
fn sorts_before_is_bytewise() {
    assert!(sorts_before("a", "b"));
    assert!(!sorts_before("b", "a"));
    assert!(!sorts_before("a", "a"));
    assert!(sorts_before("", "a"));
    assert!(!sorts_before("a", ""));
    assert!(sorts_before("a", "ab"));
    assert!(sorts_before("Z", "a"));
    assert!(sorts_before("z", "é"));
    let samples = ["", "a", "ab", "b", "Printer", "printer", "é", "zz", "z"];
    for x in samples {
        for y in samples {
            assert_eq!(sorts_before(x, y), x < y, "{:?} {:?}", x, y);
        }
    }
}
