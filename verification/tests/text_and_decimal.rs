use tiez_shell::decimal::{parse_u16, parse_u32, to_decimal};
use tiez_shell::text::{lines_trimmed, replace_all, split_trimmed, to_ascii_lowercase, trim};

#[test]
fn trimming_agrees_with_the_standard_library() {
    for text in ["", " a ", "\u{3000}x\u{a0}", "\t\r\n", "a b", "\u{85}y\u{2028}"] {
        assert_eq!(trim(text), text.trim());
        assert_eq!(to_ascii_lowercase(text), text.to_ascii_lowercase());
    }
}

#[test]
fn numbers_read_like_unsigned_integers() {
    for text in ["0", "+7", "-1", "", "+", "4294967295", "4294967296", "00012", "1x", "65535", "65536"] {
        assert_eq!(parse_u32(text), text.parse::<u32>().ok());
        assert_eq!(parse_u16(text), text.parse::<u16>().ok());
    }
    assert_eq!(to_decimal(1024), "1024");
    assert_eq!(parse_u32(&to_decimal(u32::MAX)), Some(u32::MAX));
}

#[test]
fn splitting_agrees_with_the_standard_library() {
    for text in ["", "a", "a, b ,c", ",", "phone,idcard,email,secret"] {
        let want: Vec<String> = text.split(',').map(|x| x.trim().to_string()).collect();
        assert_eq!(split_trimmed(text, ','), want);
    }
    for text in ["", "a", "a\n", "\n", "a\r\nb", "a\n\nb\n\n", "x\r"] {
        let want: Vec<String> = text.lines().map(|x| x.trim().to_string()).collect();
        assert_eq!(lines_trimmed(text), want);
    }
    for text in ["", "Win+V", "WinWin", "WiWin", "Alt+C", "Win"] {
        assert_eq!(replace_all(text, "Win", "Super"), text.replace("Win", "Super"));
    }
}
