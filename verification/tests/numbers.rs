use adhan::number::is_number;
use adhan::responses::keep_number;

#[test]
fn plain_decimal_numbers_are_numbers() {
    for text in ["0", "7", "118.99", "-0.12574", "+51.5", "5.", ".5", "-.5", "+5.", "007", "1e5", "1E5", "1e+5", "1.5e-3", ".5e1", "5.e1"] {
        assert!(is_number(text), "{}", text);
    }
}

#[test]
fn the_special_words_are_numbers_in_either_case() {
    for text in ["inf", "INF", "Inf", "-inf", "+inf", "infinity", "Infinity", "-INFINITY", "nan", "NaN", "-nan", "+NAN"] {
        assert!(is_number(text), "{}", text);
    }
}

#[test]
fn other_texts_are_no_numbers() {
    for text in [
        "", "+", "-", ".", "+.", "e5", ".e5", "1e", "1e+", "1e-", "1e5.", "1.5.2", "1 ", " 1", "1,5",
        "0x10", "1_000", "--1", "+-1", "1f", "in", "infinit", "infinityy", "na", "nano", "unknown",
        "١٢", "1\u{ff11}", "\u{212a}", "inf ", "ınf", "1e5e5", "1..", "e", "E", "1ee5", "1e 5",
    ] {
        assert!(!is_number(text), "{}", text);
    }
}

#[test]
fn a_text_is_a_number_where_a_float_reads_it() {
    let pieces = ["", "+", "-", "0", "9", "12", ".", "e", "E", "inf", "NaN", "infinity", " ", "a", "٣"];
    for a in pieces {
        for b in pieces {
            for c in pieces {
                for d in pieces {
                    let text = format!("{}{}{}{}", a, b, c, d);
                    assert_eq!(is_number(&text), text.parse::<f64>().is_ok(), "{:?}", text);
                }
            }
        }
    }
}

#[test]
fn only_a_number_is_kept() {
    assert_eq!(keep_number(&"51.50853".to_string()), Some("51.50853".to_string()));
    assert_eq!(keep_number(&"-0.12574".to_string()), Some("-0.12574".to_string()));
    assert_eq!(keep_number(&"".to_string()), None);
    assert_eq!(keep_number(&"north".to_string()), None);
    assert_eq!(keep_number(&"51,5".to_string()), None);
}
