use lib::{apply_flag, compare, natsort_key, natsort_keygen, natsorted, natsorted_by, number_texts, parse_flags, Chunk, Ns};
use std::cmp::Ordering;

fn v(items: &[&str]) -> Vec<String> {
    items.iter().map(|s| s.to_string()).collect()
}

fn bits(s: &str, ns: Ns) -> Vec<u64> {
    number_texts(s, ns)
        .iter()
        .map(|t| t.iter().collect::<String>().parse::<f64>().unwrap_or(0.0).to_bits())
        .collect()
}

fn texts(s: &str, ns: Ns) -> Vec<String> {
    number_texts(s, ns).iter().map(|t| t.iter().collect()).collect()
}

fn key_of(s: &str, ns: Ns) -> Vec<Chunk> {
    natsort_key(s, ns, &bits(s, ns))
}

fn order(a: &str, b: &str, ns: Ns) -> Ordering {
    compare(a, b, ns, &bits(a, ns), &bits(b, ns))
}

fn sort_with(items: &[String], ns: Ns) -> Vec<String> {
    let floats: Vec<Vec<u64>> = items.iter().map(|s| bits(s, ns)).collect();
    natsorted_by(items, ns, &floats)
}

fn t(s: &str) -> Chunk {
    Chunk::Text(s.chars().collect())
}

fn f(x: f64) -> Chunk {
    Chunk::Float(x.to_bits())
}

#[test]
fn key_alternates_text_and_numbers() {
    assert_eq!(
        key_of("a1b22c", Ns::default_flags()),
        vec![t("a"), Chunk::Int(1), t("b"), Chunk::Int(22), t("c")]
    );
    assert_eq!(key_of("7", Ns::default_flags()), vec![t(""), Chunk::Int(7)]);
}

fn digits(s: &str) -> Vec<u8> {
    s.bytes().map(|b| b - b'0').collect()
}

#[test]
fn integers_beyond_i128_keep_their_value() {
    let max = "x170141183460469231731687303715884105727";
    let over = "x170141183460469231731687303715884105728";
    assert_eq!(key_of(max, Ns::default_flags()), vec![t("x"), Chunk::Int(i128::MAX)]);
    assert_eq!(
        key_of(over, Ns::default_flags()),
        vec![t("x"), Chunk::BigInt(false, digits("170141183460469231731687303715884105728"))]
    );
    assert_eq!(
        key_of("x000099999999999999999999999999999999999999999", Ns::default_flags()),
        vec![t("x"), Chunk::BigInt(false, digits("99999999999999999999999999999999999999999"))]
    );
    let big = format!("1{}", "0".repeat(39));
    assert_eq!(order(&big, "2", Ns::default_flags()), Ordering::Greater);
    assert_eq!(order(&big, &format!("9{}", "9".repeat(38)), Ns::default_flags()), Ordering::Greater);
    assert_eq!(order(&big, &format!("1{}1", "0".repeat(38)), Ns::default_flags()), Ordering::Less);
    assert_eq!(order(&big, &format!("00{}", big), Ns::default_flags()), Ordering::Equal);
    let input = v(&[&big, "2", "170141183460469231731687303715884105727"]);
    assert_eq!(natsorted(&input), v(&["2", "170141183460469231731687303715884105727", &big]));
}

#[test]
fn negative_integers_beyond_i128_keep_their_value() {
    let ns = Ns::signed_flags();
    let below = format!("-{}", "9".repeat(50));
    assert_eq!(order(&below, "-170141183460469231731687303715884105728", ns), Ordering::Less);
    assert_eq!(order(&below, &format!("-{}", "9".repeat(49)), ns), Ordering::Less);
    assert_eq!(order(&below, &"9".repeat(50), ns), Ordering::Less);
    assert_eq!(key_of(&below, ns), vec![t(""), Chunk::BigInt(true, vec![9; 50])]);
}

#[test]
fn signed_minimum_fits() {
    let min = "x-170141183460469231731687303715884105728";
    let below = "x-170141183460469231731687303715884105729";
    assert_eq!(key_of(min, Ns::signed_flags()), vec![t("x"), Chunk::Int(i128::MIN)]);
    assert_eq!(
        key_of(below, Ns::signed_flags()),
        vec![t("x"), Chunk::BigInt(true, digits("170141183460469231731687303715884105729"))]
    );
    assert_eq!(key_of("x+12", Ns::signed_flags()), vec![t("x"), Chunk::Int(12)]);
}

#[test]
fn sign_is_text_without_signed_flag() {
    assert_eq!(key_of("a-5", Ns::default_flags()), vec![t("a-"), Chunk::Int(5)]);
    assert_eq!(key_of("a-5", Ns::float_flags()), vec![t("a-"), f(5.0)]);
}

#[test]
fn mixed_script_digits_form_one_number() {
    assert_eq!(key_of("1\u{0662}", Ns::default_flags()), vec![t(""), Chunk::Int(12)]);
    assert_eq!(key_of("\u{0E55}", Ns::default_flags()), vec![t(""), Chunk::Int(5)]);
    assert_eq!(key_of("\u{09EF}\u{0966}", Ns::default_flags()), vec![t(""), Chunk::Int(90)]);
}

#[test]
fn number_texts_are_ascii_decimals() {
    assert_eq!(texts("a-1.5E+3b", Ns::real_flags()), v(&["-1.5e+3"]));
    assert_eq!(texts("\u{FF11}.\u{FF15}", Ns::float_flags()), v(&["1.5"]));
    assert_eq!(texts("1.e133", Ns::real_flags()), v(&["1.e133"]));
    assert_eq!(texts("x.5y-.25", Ns::real_flags()), v(&[".5", "-.25"]));
    assert_eq!(texts("a1b2", Ns::default_flags()), Vec::<String>::new());
}

#[test]
fn exponent_needs_a_digit() {
    assert_eq!(key_of("2e+", Ns::real_flags()), vec![t(""), f(2.0), t("e+")]);
    assert_eq!(key_of("2E-3x", Ns::real_flags()), vec![t(""), f(0.002), t("x")]);
}

#[test]
fn point_after_digits_belongs_to_number() {
    assert_eq!(key_of("1.", Ns::float_flags()), vec![t(""), f(1.0)]);
    assert_eq!(key_of("a.b", Ns::float_flags()), vec![t("a.b")]);
    assert_eq!(key_of(".5", Ns::float_flags()), vec![t(""), f(0.5)]);
}

#[test]
fn negative_zero_ties_with_zero() {
    assert_eq!(order("a-0", "a0", Ns::real_flags()), Ordering::Equal);
    assert_eq!(order("a0", "a-0.0", Ns::real_flags()), Ordering::Equal);
    assert_eq!(key_of("-0", Ns::real_flags()), vec![t(""), f(0.0)]);
    assert_eq!(sort_with(&v(&["0", "-0"]), Ns::real_flags()), v(&["0", "-0"]));
    assert_eq!(sort_with(&v(&["-0", "0"]), Ns::real_flags()), v(&["-0", "0"]));
    assert_eq!(order("a-1e-320", "a-0", Ns::real_flags()), Ordering::Less);
}

#[test]
fn every_unicode_decimal_digit_is_a_digit() {
    // MYANMAR DIGIT ONE, NKO DIGIT SEVEN, MATHEMATICAL BOLD DIGIT THREE.
    assert_eq!(lib::chars::digit_value('\u{1041}'), Some(1));
    assert_eq!(lib::chars::digit_value('\u{07C7}'), Some(7));
    assert_eq!(lib::chars::digit_value('\u{1D7D1}'), Some(3));
    assert_eq!(lib::chars::digit_value('\u{00B2}'), None);
    assert_eq!(key_of("v\u{1041}\u{1040}", Ns::default_flags()), vec![t("v"), Chunk::Int(10)]);
}

#[test]
fn other_digits_are_single_digit_numbers() {
    let ns = Ns::default_flags();
    assert_eq!(key_of("a\u{2461}", ns), vec![t("a"), Chunk::Int(2)]);
    assert_eq!(key_of("x\u{00B2}\u{00B3}", ns), vec![t("x"), Chunk::Int(2), t(""), Chunk::Int(3)]);
    assert_eq!(key_of("1\u{2082}", ns), vec![t(""), Chunk::Int(1), t(""), Chunk::Int(2)]);
    assert_eq!(key_of("-\u{2461}", Ns::signed_flags()), vec![t("-"), Chunk::Int(2)]);
    // Under the float algorithms they are numbers too, by numeric value.
    assert_eq!(key_of("a\u{2461}", Ns::real_flags()), vec![t("a"), f(2.0)]);
}

#[test]
fn numeric_characters_are_numbers_under_float() {
    assert_eq!(key_of("\u{00BD}", Ns::real_flags()), vec![t(""), f(0.5)]);
    assert_eq!(key_of("\u{00BD}", Ns::default_flags()), vec![t("\u{00BD}")]);
    assert_eq!(key_of("\u{2467}", Ns::float_flags()), vec![t(""), f(8.0)]);
    assert_eq!(key_of("c\u{2169}", Ns::float_flags()), vec![t("c"), f(10.0)]);
    assert_eq!(key_of("c\u{2169}", Ns::default_flags()), vec![t("c\u{2169}")]);
    assert_eq!(texts("\u{2153}\u{4E07}", Ns::float_flags()), v(&["0.3333333333333333", "10000"]));
    let input = v(&["x\u{00BE}", "x\u{00BD}", "x1", "x\u{00BC}"]);
    assert_eq!(sort_with(&input, Ns::real_flags()), v(&["x\u{00BC}", "x\u{00BD}", "x\u{00BE}", "x1"]));
}

#[test]
fn ignorecase_casefolds() {
    let ns = Ns::default_flags().with_ignorecase();
    assert_eq!(order("stra\u{00DF}e", "STRASSE", ns), Ordering::Equal);
    assert_eq!(key_of("\u{00DF}", ns), vec![t("ss")]);
    assert_eq!(key_of("\u{FB01}", ns), vec![t("fi")]);
    assert_eq!(key_of("\u{03A3}\u{03C2}", ns), vec![t("\u{03C3}\u{03C3}")]);
    assert_eq!(key_of("\u{13A0}\u{AB70}", ns), vec![t("\u{13A0}\u{13A0}")]);
    let g = Ns::default_flags().with_groupletters();
    assert_eq!(key_of("\u{00DF}", g), vec![t("ss\u{00DF}")]);
}

#[test]
fn huge_exponent_is_infinity() {
    assert_eq!(order("1e300", "1e999", Ns::real_flags()), Ordering::Less);
    assert_eq!(order("-1e999", "-1e300", Ns::real_flags()), Ordering::Less);
}

#[test]
fn shorter_key_prefix_sorts_first() {
    assert_eq!(order("file", "file1", Ns::default_flags()), Ordering::Less);
    assert_eq!(order("1", "a", Ns::default_flags()), Ordering::Less);
}

#[test]
fn compare_is_reflexive_and_antisymmetric() {
    for ns in [Ns::default_flags(), Ns::signed_flags(), Ns::float_flags(), Ns::real_flags()] {
        for (a, b) in [("x1.5", "x1.25"), ("a-3", "a2"), ("b", "B"), ("1e5", "1e05")] {
            assert_eq!(order(a, a, ns), Ordering::Equal);
            assert_eq!(order(a, b, ns), order(b, a, ns).reverse());
        }
    }
}

#[test]
fn compare_is_transitive_on_examples() {
    let ns = Ns::real_flags();
    let items = ["x-2", "x-1.5", "x0", "x1e-3", "x2", "y"];
    for a in items {
        for b in items {
            for c in items {
                if order(a, b, ns) != Ordering::Greater && order(b, c, ns) != Ordering::Greater {
                    assert_ne!(order(a, c, ns), Ordering::Greater);
                }
            }
        }
    }
}

#[test]
fn sorting_sorted_list_changes_nothing() {
    let input = v(&["b10", "a2", "b9", "a10", "a2"]);
    let once = natsorted(&input);
    assert_eq!(once, v(&["a2", "a2", "a10", "b9", "b10"]));
    assert_eq!(natsorted(&once), once);
}

#[test]
fn sorting_keeps_every_item() {
    let input = v(&["z", "1", "z", "01", "a"]);
    let mut sorted = natsorted(&input);
    assert_eq!(sorted, v(&["1", "01", "a", "z", "z"]));
    let mut orig = input.clone();
    orig.sort();
    sorted.sort();
    assert_eq!(orig, sorted);
}

#[test]
fn equal_numbers_keep_input_order() {
    let input = v(&["a01", "a+1", "a1"]);
    assert_eq!(sort_with(&input, Ns::signed_flags()), v(&["a01", "a+1", "a1"]));
    let input = v(&["x1.50", "x1.5"]);
    assert_eq!(sort_with(&input, Ns::float_flags()), v(&["x1.50", "x1.5"]));
}

#[test]
fn ignorecase_folds_non_ascii_letters() {
    let ns = Ns::default_flags().with_ignorecase();
    assert_eq!(order("\u{C9}cole", "\u{E9}cole", ns), Ordering::Equal);
    assert_eq!(key_of("\u{C9}T\u{C9}", ns), vec![t("e\u{301}te\u{301}")]);
}

#[test]
fn groupletters_puts_lowercase_before_each_letter() {
    let ns = Ns::default_flags().with_groupletters();
    assert_eq!(key_of("aB\u{C9}", ns), vec![t("aabBeE\u{301}\u{301}")]);
    assert_eq!(key_of("a\u{3A3}", ns), vec![t("aa\u{3C3}\u{3A3}")]);
}

#[test]
fn lowercasefirst_swaps_ascii_case_only() {
    let ns = Ns::default_flags().with_lowercasefirst();
    assert_eq!(key_of("aB\u{C9}1", ns), vec![t("Abe\u{301}"), Chunk::Int(1)]);
    assert_eq!(key_of("\u{3A3}", ns), vec![t("\u{3A3}")]);
}

#[test]
fn all_text_transforms_apply_in_order() {
    let ns = Ns::default_flags().with_lowercasefirst().with_groupletters().with_ignorecase();
    // swap case: "A" -> "a"; group: "aa"; lowercase: "aa".
    assert_eq!(key_of("A", ns), vec![t("aa")]);
}

#[test]
fn builders_set_one_flag_each() {
    let ns = Ns::default_flags().with_ignorecase();
    assert!(ns.ignorecase && !ns.lowercasefirst && !ns.groupletters && !ns.float && !ns.signed);
    let ns = Ns::real_flags().with_groupletters().with_lowercasefirst();
    assert!(ns.float && ns.signed && ns.groupletters && ns.lowercasefirst && !ns.ignorecase);
    assert_eq!(Ns::default_flags(), Ns::default());
    assert!(Ns::float_flags().float && !Ns::float_flags().signed);
    assert!(Ns::signed_flags().signed && !Ns::signed_flags().float);
}

#[test]
fn flags_from_command_line() {
    let (ns, unknown) = parse_flags(&v(&["--real", "--bogus", "--ignorecase"]));
    assert_eq!(ns, Ns::real_flags().with_ignorecase());
    assert_eq!(unknown, v(&["--bogus"]));
    let (ns, unknown) = parse_flags(&v(&[]));
    assert_eq!(ns, Ns::default_flags());
    assert!(unknown.is_empty());
    assert_eq!(apply_flag(Ns::default_flags(), "--float"), Some(Ns::float_flags()));
    assert_eq!(apply_flag(Ns::default_flags(), "--signed"), Some(Ns::signed_flags()));
    assert_eq!(
        apply_flag(Ns::default_flags(), "--lowercasefirst"),
        Some(Ns::default_flags().with_lowercasefirst())
    );
    assert_eq!(
        apply_flag(Ns::default_flags(), "--groupletters"),
        Some(Ns::default_flags().with_groupletters())
    );
    assert_eq!(apply_flag(Ns::default_flags(), "--real "), None);
}

#[test]
fn sorts_a_long_list() {
    let input: Vec<String> = (0..3000).rev().map(|i| format!("file{}", (i * 7919) % 3000)).collect();
    let sorted = natsorted(&input);
    let expected: Vec<String> = (0..3000).map(|i| format!("file{}", i)).collect();
    assert_eq!(sorted, expected);
}

#[test]
fn strings_are_compared_in_canonical_decomposition() {
    let ns = Ns::default_flags();
    assert_eq!(order("caf\u{E9}", "cafe\u{301}", ns), Ordering::Equal);
    assert_eq!(key_of("\u{E9}", ns), vec![t("e\u{301}")]);
    // A Hangul syllable decomposes into its jamo.
    assert_eq!(key_of("\u{D55C}", ns), vec![t("\u{1112}\u{1161}\u{11AB}")]);
    assert_eq!(key_of("\u{AC00}", ns), vec![t("\u{1100}\u{1161}")]);
    // Combining marks are put in canonical order.
    assert_eq!(key_of("a\u{301}\u{316}", ns), vec![t("a\u{316}\u{301}")]);
    assert_eq!(order("a\u{301}\u{316}", "a\u{316}\u{301}", ns), Ordering::Equal);
    // Decomposition goes all the way (U+1E69 is s with dot below and dot above).
    assert_eq!(key_of("\u{1E69}", ns), vec![t("s\u{323}\u{307}")]);
}

#[test]
fn keygen_gives_the_key() {
    let keygen = natsort_keygen(Ns::real_flags());
    let s = "x-1.5y";
    assert_eq!(keygen(s, &bits(s, Ns::real_flags())), vec![t("x"), f(-1.5), t("y")]);
    let copy = keygen;
    assert_eq!(copy("", &Vec::new()), vec![t("")]);
}

#[test]
fn chunk_equality_agrees_with_compare() {
    let ns = Ns::real_flags();
    let words = ["a-0", "a0", "a1", "a1.0", "b", "a1e0", "a\u{BD}", "a0.5"];
    for a in words {
        for b in words {
            assert_eq!(key_of(a, ns) == key_of(b, ns), order(a, b, ns) == Ordering::Equal);
        }
    }
    let big = format!("1{}", "0".repeat(40));
    let ns = Ns::default_flags();
    assert_eq!(key_of(&big, ns) == key_of(&format!("0{}", big), ns), true);
    assert_eq!(order(&big, &format!("0{}", big), ns), Ordering::Equal);
}

#[test]
fn sorting_again_with_carried_floats_changes_nothing() {
    let ns = Ns::real_flags();
    let items = v(&["x1", "x2", "x3", "y"]);
    let given = |s: &str| -> Vec<u64> {
        match s {
            "x1" => vec![3.0f64.to_bits()],
            "x2" => vec![1.0f64.to_bits()],
            "x3" => vec![2.0f64.to_bits()],
            _ => Vec::new(),
        }
    };
    let floats: Vec<Vec<u64>> = items.iter().map(|s| given(s)).collect();
    let once = natsorted_by(&items, ns, &floats);
    assert_eq!(once, v(&["x2", "x3", "x1", "y"]));
    let carried: Vec<Vec<u64>> = once.iter().map(|s| given(s)).collect();
    assert_eq!(natsorted_by(&once, ns, &carried), once);
}

#[test]
fn chunks_are_equal_by_variant_and_fields() {
    assert!(Chunk::Int(3) == Chunk::Int(3));
    assert!(Chunk::Int(3) != Chunk::Int(4));
    assert!(t("ab") == t("ab"));
    assert!(t("ab") != t("abc"));
    assert!(Chunk::BigInt(true, vec![1, 2]) == Chunk::BigInt(true, vec![1, 2]));
    assert!(Chunk::BigInt(true, vec![1, 2]) != Chunk::BigInt(false, vec![1, 2]));
    assert!(Chunk::BigInt(false, vec![1, 2]) != Chunk::BigInt(false, vec![1, 3]));
    assert!(f(1.5) == f(1.5));
    assert!(Chunk::Int(1) != f(1.0));
    assert!(t("1") != Chunk::Int(1));
}
