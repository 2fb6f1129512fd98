use number_to_words::verbalize;

/// A small reference parser for the sentences the library produces for small
/// numbers: digit words add into the current group, "hundred" scales it, and
/// "thousand" banks it.
fn phrase_to_int(phrase: &str) -> u32 {
    let mut total: u32 = 0;
    let mut group: u32 = 0;
    for token in phrase.split_whitespace() {
        let word = token.trim_end_matches(',');
        let value = match word {
            "zero" => Some(0),
            "one" => Some(1),
            "two" => Some(2),
            "three" => Some(3),
            "four" => Some(4),
            "five" => Some(5),
            "six" => Some(6),
            "seven" => Some(7),
            "eight" => Some(8),
            "nine" => Some(9),
            "ten" => Some(10),
            "eleven" => Some(11),
            "twelve" => Some(12),
            "thirteen" => Some(13),
            "fourteen" => Some(14),
            "fifteen" => Some(15),
            "sixteen" => Some(16),
            "seventeen" => Some(17),
            "eighteen" => Some(18),
            "nineteen" => Some(19),
            "twenty" => Some(20),
            "thirty" => Some(30),
            "forty" => Some(40),
            "fifty" => Some(50),
            "sixty" => Some(60),
            "seventy" => Some(70),
            "eighty" => Some(80),
            "ninety" => Some(90),
            _ => None,
        };
        match (value, word) {
            (Some(v), _) => group += v,
            (None, "hundred") => group *= 100,
            (None, "thousand") => {
                total += group * 1000;
                group = 0;
            }
            (None, other) => panic!("unexpected word: {}", other),
        }
    }
    total + group
}

#[test]
fn small_numbers_round_trip_through_a_reference_parser() {
    for n in 0u32..=9999 {
        let phrase = verbalize(&n.to_string()).unwrap();
        assert_eq!(phrase_to_int(&phrase), n, "phrase was: {}", phrase);
    }
}
