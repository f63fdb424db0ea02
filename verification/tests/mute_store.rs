use rupamix::mute_store::{is_float_word, read_tmp_vol};

fn chars(text: &str) -> Vec<char> {
    text.chars().collect()
}

#[test]
fn the_loudness_is_the_first_number_in_the_record() {
    assert_eq!(read_tmp_vol("0: -16.01 dB 1: -15.00 dB"), Some("-16.01"));
    assert_eq!(read_tmp_vol("-16.01 dB"), Some("-16.01"));
    assert_eq!(read_tmp_vol("front-left: 0.00 dB"), Some("0.00"));
    assert_eq!(read_tmp_vol("0: -inf dB"), Some("-inf"));
    assert_eq!(read_tmp_vol("54"), Some("54"));
    assert_eq!(read_tmp_vol("dB\t1e3\n"), Some("1e3"));
    assert_eq!(read_tmp_vol("é ü 2.5"), Some("2.5"));
}

#[test]
fn a_record_without_a_number_holds_no_loudness() {
    assert_eq!(read_tmp_vol(""), None);
    assert_eq!(read_tmp_vol("   "), None);
    assert_eq!(read_tmp_vol("0: dB"), None);
    assert_eq!(read_tmp_vol("-16.01dB"), None);
    assert_eq!(read_tmp_vol("1,5 1_000 0x10 . e5 + -"), None);
}

#[test]
fn numbers_are_told_from_other_words() {
    for word in [
        "0", "-16.01", "+3", ".5", "5.", "1e5", "1E5", "1e+5", "1e-5", "+.5e-3", "007", "inf",
        "-inf", "+INF", "Infinity", "-INFINITY", "nan", "NaN", "-nan", "12345678901234567890",
        "0.000000000000000000001e400",
    ] {
        assert!(is_float_word(&chars(word)), "{word:?} is a number");
        assert!(word.parse::<f64>().is_ok(), "{word:?} is a number");
    }
    for word in [
        "", "+", "-", ".", "e", "e5", "1e", "1e+", "1.2.3", "1..2", "--1", "+-1", "1-", "1+1",
        "1e5e5", "1e5.5", "1e.5", "infinit", "infinityy", "in", "na", "nann", "i", "1 ", " 1", "1f",
        "0x10", "1_0", "١", "1,5", ".e5", "+.", "-.e1",
    ] {
        assert!(!is_float_word(&chars(word)), "{word:?} is no number");
        assert!(word.parse::<f64>().is_err(), "{word:?} is no number");
    }
}

#[test]
fn every_short_word_is_judged_as_the_standard_library_judges_it() {
    let letters = ['0', '7', '.', 'e', 'E', '+', '-', 'i', 'n', 'f', 'a', 'N', ' ', 'x'];
    let mut words: Vec<String> = vec![String::new()];
    let mut from = 0;
    for _ in 0..4 {
        let upto = words.len();
        for at in from..upto {
            for letter in letters {
                let mut word = words[at].clone();
                word.push(letter);
                words.push(word);
            }
        }
        from = upto;
    }
    assert_eq!(words.len(), 1 + 14 + 196 + 2744 + 38416);
    for word in words {
        assert_eq!(is_float_word(&chars(&word)), word.parse::<f64>().is_ok(), "for {word:?}");
    }
}

#[test]
fn the_first_number_is_found_as_by_trying_each_word() {
    let letters = ['1', '.', 'e', '-', ' ', '\n', 'n', 'a'];
    let mut texts: Vec<String> = vec![String::new()];
    let mut from = 0;
    for _ in 0..5 {
        let upto = texts.len();
        for at in from..upto {
            for letter in letters {
                let mut text = texts[at].clone();
                text.push(letter);
                texts.push(text);
            }
        }
        from = upto;
    }
    for text in texts {
        let expected =
            text.split(char::is_whitespace).find(|word| word.parse::<f64>().is_ok());
        assert_eq!(read_tmp_vol(&text), expected, "for {text:?}");
    }
}
