use binary_room::number::{
    digit_value, parse_i32, parse_u64, push_decimal, push_decimal_digits, push_hex,
    push_hex_digits,
};
use binary_room::parser::{mnemonic_of, page_label_of, Mnemonic};
use binary_room::text::{
    chars_of, contains_str, drop_leading_of, drop_trailing_of, find_char, find_from, has_char,
    is_str, is_whitespace, push_all, push_str, replace_in, slice_of, split_fields,
    split_first_word, split_lines, starts_with_str, string_of, trim_of, CharClass,
};

fn cs(s: &str) -> Vec<char> {
    s.chars().collect()
}

fn all(parts: &[&str]) -> Vec<Vec<char>> {
    parts.iter().map(|p| cs(p)).collect()
}

#[test]
fn strings_and_characters() {
    for s in ["", "a", "hello, world", "tab\tand\nnewline", "gr\u{fc}\u{df}e \u{4e16}\u{754c}"] {
        assert_eq!(chars_of(s), cs(s));
        assert_eq!(string_of(&cs(s)), s);
        assert_eq!(string_of(&chars_of(s)), s);
    }
    assert_eq!(string_of(&vec!['a', 'b']), "ab");
    assert_eq!(chars_of("ab"), vec!['a', 'b']);
}

#[test]
fn appending() {
    let mut out = cs("ab");
    push_str(&mut out, "cd");
    push_str(&mut out, "");
    push_all(&mut out, &cs("ef"));
    assert_eq!(out, cs("abcdef"));
}

#[test]
fn comparing() {
    assert!(is_str(&cs("li"), "li"));
    assert!(is_str(&cs(""), ""));
    assert!(!is_str(&cs("li"), "l"));
    assert!(!is_str(&cs("l"), "li"));
    assert!(!is_str(&cs("li"), "la"));
    assert!(starts_with_str(&cs("0x10"), "0x"));
    assert!(starts_with_str(&cs("0x"), "0x"));
    assert!(starts_with_str(&cs("0x"), ""));
    assert!(!starts_with_str(&cs("0"), "0x"));
    assert!(!starts_with_str(&cs("10x0"), "0x"));
}

#[test]
fn slices() {
    let v = cs("hello");
    assert_eq!(slice_of(&v, 0, 5), cs("hello"));
    assert_eq!(slice_of(&v, 1, 3), cs("el"));
    assert_eq!(slice_of(&v, 2, 2), cs(""));
    assert_eq!(slice_of(&v, 5, 5), cs(""));
}

#[test]
fn replacing() {
    assert_eq!(replace_in("main, @function", '@', '%'), "main, %function");
    assert_eq!(replace_in("@@", '@', '%'), "%%");
    assert_eq!(replace_in("none", '@', '%'), "none");
    assert_eq!(replace_in("", '@', '%'), "");
}

#[test]
fn white_space() {
    for c in [' ', '\t', '\n', '\r', '\u{b}', '\u{c}', '\u{85}', '\u{a0}', '\u{1680}', '\u{2000}',
        '\u{200a}', '\u{2028}', '\u{2029}', '\u{202f}', '\u{205f}', '\u{3000}']
    {
        assert!(is_whitespace(c));
        assert!(CharClass::Space.contains(c));
    }
    for c in ['a', '0', '.', '\u{8}', '\u{e}', '\u{84}', '\u{200b}', '\u{feff}', '\u{180e}'] {
        assert!(!is_whitespace(c));
        assert!(!CharClass::Space.contains(c));
    }
    for n in 0..0x3100u32 {
        if let Some(c) = char::from_u32(n) {
            assert_eq!(is_whitespace(c), c.is_whitespace());
        }
    }
    assert!(CharClass::Is(':').contains(':'));
    assert!(!CharClass::Is(':').contains(';'));
}

#[test]
fn searching() {
    let v = cs("a,b,,c");
    assert_eq!(find_char(&v, ','), 1);
    assert_eq!(find_char(&v, 'a'), 0);
    assert_eq!(find_char(&v, 'c'), 5);
    assert_eq!(find_char(&v, 'x'), 6);
    assert_eq!(find_char(&cs(""), 'x'), 0);
    assert_eq!(find_from(&v, CharClass::Is(','), 2), 3);
    assert_eq!(find_from(&v, CharClass::Is(','), 3), 3);
    assert_eq!(find_from(&v, CharClass::Is(','), 5), 6);
    assert_eq!(find_from(&v, CharClass::Is(','), 6), 6);
    assert_eq!(find_from(&cs("ab cd"), CharClass::Space, 0), 2);
    assert!(has_char(&v, ','));
    assert!(!has_char(&v, '#'));
    assert!(contains_str(&cs("   100b0:  .word 0x1"), ".word"));
    assert!(contains_str(&cs(".word"), ".word"));
    assert!(contains_str(&cs("x.word"), ".word"));
    assert!(contains_str(&cs("abc"), ""));
    assert!(contains_str(&cs(""), ""));
    assert!(!contains_str(&cs(".wor"), ".word"));
    assert!(!contains_str(&cs(".wxrd .wor d"), ".word"));
    assert!(contains_str(&cs("<main>:"), ">:"));
    assert!(!contains_str(&cs("<main> :"), ">:"));
}

#[test]
fn trimming() {
    assert_eq!(trim_of(&cs("  a b \t\n")), cs("a b"));
    assert_eq!(trim_of(&cs("a")), cs("a"));
    assert_eq!(trim_of(&cs("   ")), cs(""));
    assert_eq!(trim_of(&cs("")), cs(""));
    assert_eq!(trim_of(&cs("\u{a0}x\u{3000}")), cs("x"));
    assert_eq!(drop_leading_of(&cs("  a "), CharClass::Space), cs("a "));
    assert_eq!(drop_trailing_of(&cs("  a "), CharClass::Space), cs("  a"));
    assert_eq!(drop_trailing_of(&cs("100be:"), CharClass::Is(':')), cs("100be"));
    assert_eq!(drop_trailing_of(&cs("a:b::"), CharClass::Is(':')), cs("a:b"));
    assert_eq!(drop_trailing_of(&cs(":::"), CharClass::Is(':')), cs(""));
    assert_eq!(drop_leading_of(&cs("::a:"), CharClass::Is(':')), cs("a:"));
    for s in ["", " ", " a", "a ", " \t a \u{2003} b \r\n ", "\u{85}"] {
        assert_eq!(string_of(&trim_of(&cs(s))), s.trim());
        assert_eq!(string_of(&drop_leading_of(&cs(s), CharClass::Space)), s.trim_start());
        assert_eq!(string_of(&drop_trailing_of(&cs(s), CharClass::Space)), s.trim_end());
    }
}

#[test]
fn first_words() {
    assert_eq!(split_first_word(&cs("  addi   sp,sp,-32  ")), (cs("addi"), cs("sp,sp,-32  ")));
    assert_eq!(split_first_word(&cs("ecall")), (cs("ecall"), cs("")));
    assert_eq!(split_first_word(&cs("ecall   ")), (cs("ecall"), cs("")));
    assert_eq!(split_first_word(&cs("   ")), (cs(""), cs("")));
    assert_eq!(split_first_word(&cs("")), (cs(""), cs("")));
    assert_eq!(split_first_word(&cs("a\tb c")), (cs("a"), cs("b c")));
}

#[test]
fn fields() {
    assert_eq!(split_fields(&cs("a0,a1,12"), ','), all(&["a0", "a1", "12"]));
    assert_eq!(split_fields(&cs("a0"), ','), all(&["a0"]));
    assert_eq!(split_fields(&cs(""), ','), all(&[""]));
    assert_eq!(split_fields(&cs(","), ','), all(&["", ""]));
    assert_eq!(split_fields(&cs("a,,b,"), ','), all(&["a", "", "b", ""]));
    assert_eq!(split_fields(&cs(" a , b "), ','), all(&[" a ", " b "]));
    for s in ["", ",", ",,", "a", "a,b", ",a,", "a,b,c,,"] {
        let expected: Vec<Vec<char>> = s.split(',').map(|p| p.chars().collect()).collect();
        assert_eq!(split_fields(&cs(s), ','), expected);
    }
}

#[test]
fn lines() {
    assert_eq!(split_lines(&cs("a\nb\nc")), all(&["a", "b", "c"]));
    assert_eq!(split_lines(&cs("a\nb\n")), all(&["a", "b"]));
    assert_eq!(split_lines(&cs("")), all(&[]));
    assert_eq!(split_lines(&cs("\n")), all(&[""]));
    assert_eq!(split_lines(&cs("\n\n")), all(&["", ""]));
    assert_eq!(split_lines(&cs("a\n\nb")), all(&["a", "", "b"]));
    assert_eq!(split_lines(&cs("a\r\nb\r\n")), all(&["a", "b"]));
    assert_eq!(split_lines(&cs("a\rb")), all(&["a\rb"]));
    assert_eq!(split_lines(&cs("a\r")), all(&["a\r"]));
    assert_eq!(split_lines(&cs("a\r\r\n")), all(&["a\r"]));
    assert_eq!(split_lines(&cs("\r\n")), all(&[""]));
    for s in ["", "\n", "a", "a\n", "a\nb", "\na", "a\r\nb\n\r\n", "\r", "x\r\n\ny\r"] {
        let expected: Vec<Vec<char>> = s.lines().map(|p| p.chars().collect()).collect();
        assert_eq!(split_lines(&cs(s)), expected);
    }
}

#[test]
fn digits() {
    assert_eq!(digit_value('0', 10), Some(0));
    assert_eq!(digit_value('9', 10), Some(9));
    assert_eq!(digit_value('a', 10), None);
    assert_eq!(digit_value('a', 16), Some(10));
    assert_eq!(digit_value('f', 16), Some(15));
    assert_eq!(digit_value('F', 16), Some(15));
    assert_eq!(digit_value('g', 16), None);
    assert_eq!(digit_value('z', 36), Some(35));
    assert_eq!(digit_value('Z', 36), Some(35));
    assert_eq!(digit_value('1', 2), Some(1));
    assert_eq!(digit_value('2', 2), None);
    assert_eq!(digit_value('-', 16), None);
    assert_eq!(digit_value('\u{663}', 10), None);
    for radix in [2u32, 8, 10, 16, 36] {
        for n in 0..0x250u32 {
            if let Some(c) = char::from_u32(n) {
                assert_eq!(digit_value(c, radix), c.to_digit(radix));
            }
        }
    }
}

#[test]
fn reading_numbers() {
    let dec = |s: &str| parse_i32(&cs(s), 10);
    let hex = |s: &str| parse_i32(&cs(s), 16);
    assert_eq!(dec("0"), Some(0));
    assert_eq!(dec("64"), Some(64));
    assert_eq!(dec("-1"), Some(-1));
    assert_eq!(dec("+17"), Some(17));
    assert_eq!(dec("007"), Some(7));
    assert_eq!(dec("-0"), Some(0));
    assert_eq!(dec("2147483647"), Some(i32::MAX));
    assert_eq!(dec("2147483648"), None);
    assert_eq!(dec("-2147483648"), Some(i32::MIN));
    assert_eq!(dec("-2147483649"), None);
    assert_eq!(dec("00000000000000000000000012"), Some(12));
    assert_eq!(dec("99999999999999999999999999"), None);
    assert_eq!(dec(""), None);
    assert_eq!(dec("-"), None);
    assert_eq!(dec("+"), None);
    assert_eq!(dec("+-1"), None);
    assert_eq!(dec("--1"), None);
    assert_eq!(dec("1 "), None);
    assert_eq!(dec(" 1"), None);
    assert_eq!(dec("1a"), None);
    assert_eq!(dec("0x10"), None);
    assert_eq!(hex("10"), Some(16));
    assert_eq!(hex("100e6"), Some(0x100e6));
    assert_eq!(hex("fF"), Some(255));
    assert_eq!(hex("7fffffff"), Some(i32::MAX));
    assert_eq!(hex("80000000"), None);
    assert_eq!(hex("-80000000"), Some(i32::MIN));
    assert_eq!(hex("-a"), Some(-10));
    assert_eq!(hex("g"), None);
    assert_eq!(hex(""), None);
    for s in ["0", "12", "-12", "+5", "2147483647", "2147483648", "-2147483648", "-2147483649", "",
        "-", "abc", "7f", "-7F", "4294967295", "1_000"]
    {
        assert_eq!(dec(s), s.parse::<i32>().ok());
        assert_eq!(hex(s), i32::from_str_radix(s, 16).ok());
    }
}

#[test]
fn writing_numbers() {
    let dec = |i: i64| {
        let mut out = cs("=");
        push_decimal(&mut out, i);
        string_of(&out)
    };
    let hex = |i: i32| {
        let mut out = cs("=");
        push_hex(&mut out, i);
        string_of(&out)
    };
    assert_eq!(dec(0), "=0");
    assert_eq!(dec(9), "=9");
    assert_eq!(dec(10), "=10");
    assert_eq!(dec(-32), "=-32");
    assert_eq!(dec(4095), "=4095");
    assert_eq!(dec(2147483647), "=2147483647");
    assert_eq!(dec(-2147483648), "=-2147483648");
    assert_eq!(dec(i64::MAX), "=9223372036854775807");
    assert_eq!(dec(i64::MIN + 1), "=-9223372036854775807");
    assert_eq!(hex(0), "=0");
    assert_eq!(hex(15), "=f");
    assert_eq!(hex(16), "=10");
    assert_eq!(hex(0x2f), "=2f");
    assert_eq!(hex(i32::MAX), "=7fffffff");
    assert_eq!(hex(-1), "=ffffffff");
    assert_eq!(hex(i32::MIN), "=80000000");
    for i in [0i32, 1, 9, 10, 99, 100, 12345, -1, -10, i32::MAX, i32::MIN, -4095] {
        assert_eq!(dec(i as i64), format!("={}", i));
        assert_eq!(hex(i), format!("={:x}", i));
    }
    let mut out = Vec::new();
    push_decimal_digits(&mut out, 18446744073709551615);
    push_hex_digits(&mut out, 18446744073709551615);
    assert_eq!(string_of(&out), "18446744073709551615ffffffffffffffff");
}

#[test]
fn page_labels() {
    assert_eq!(page_label_of(16), "buf");
    assert_eq!(page_label_of(0), "0x0");
    assert_eq!(page_label_of(17), "0x11");
    assert_eq!(page_label_of(255), "0xff");
    assert_eq!(page_label_of(-1), "0xffffffff");
    assert_eq!(page_label_of(i32::MIN), "0x80000000");
}

#[test]
fn mnemonics() {
    let table = [
        ("li", Mnemonic::Li),
        ("addi", Mnemonic::Addi),
        ("addw", Mnemonic::Addw),
        ("add", Mnemonic::Add),
        ("subw", Mnemonic::Subw),
        ("sub", Mnemonic::Sub),
        ("ble", Mnemonic::Ble),
        ("blez", Mnemonic::Blez),
        ("bge", Mnemonic::Bge),
        ("blt", Mnemonic::Blt),
        ("bgt", Mnemonic::Bgt),
        ("bne", Mnemonic::Bne),
        ("call", Mnemonic::Call),
        ("lui", Mnemonic::Lui),
        ("sd", Mnemonic::Sd),
        ("sw", Mnemonic::Sw),
        ("slli", Mnemonic::Slli),
        ("ld", Mnemonic::Ld),
        ("lw", Mnemonic::Lw),
        ("mv", Mnemonic::Mv),
        ("sext.w", Mnemonic::SextW),
        ("j", Mnemonic::J),
        ("jr", Mnemonic::Jr),
        ("ecall", Mnemonic::Ecall),
    ];
    for (text, mnemonic) in table {
        assert_eq!(mnemonic_of(&cs(text)), Some(mnemonic));
    }
    for text in ["", "LI", "li ", "nop", "ret", "sextw", "addiw", ".word"] {
        assert_eq!(mnemonic_of(&cs(text)), None);
    }
}

#[test]
fn what_is_written_reads_back() {
    for i in [0i32, 1, -1, 9, 10, -10, 4095, -4095, 65536, i32::MAX, i32::MIN] {
        let mut out = Vec::new();
        push_decimal(&mut out, i as i64);
        assert_eq!(parse_i32(&out, 10), Some(i));
    }
}

#[test]
fn reading_unsigned_numbers() {
    let hex = |s: &str| parse_u64(&cs(s), 16);
    assert_eq!(hex("0"), Some(0));
    assert_eq!(hex("100e6"), Some(0x100e6));
    assert_eq!(hex("00000000000100e6"), Some(0x100e6));
    assert_eq!(hex("000000000000000000000000000100e6"), Some(0x100e6));
    assert_eq!(hex("100E6"), Some(0x100e6));
    assert_eq!(hex("80000000"), Some(0x8000_0000));
    assert_eq!(hex("ffffffffffffffff"), Some(u64::MAX));
    assert_eq!(hex("10000000000000000"), None);
    assert_eq!(hex(""), None);
    assert_eq!(hex("+1"), None);
    assert_eq!(hex("-1"), None);
    assert_eq!(hex("0x10"), None);
    assert_eq!(hex("12g"), None);
    assert_eq!(parse_u64(&cs("18446744073709551615"), 10), Some(u64::MAX));
    assert_eq!(parse_u64(&cs("18446744073709551616"), 10), None);
    for s in ["0", "7", "0007", "ffff", "FFFF", "123456789abcdef0", "fffffffffffffffff", "", "x"] {
        let expected = if s.starts_with('+') { None } else { u64::from_str_radix(s, 16).ok() };
        assert_eq!(hex(s), expected);
    }
}
