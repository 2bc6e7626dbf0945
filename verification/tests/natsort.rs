use lib::{compare, natsort_key, natsorted, natsorted_by, number_texts, realsorted, Chunk, Ns};
use std::cmp::Ordering;

fn v(items: &[&str]) -> Vec<String> {
    items.iter().map(|s| s.to_string()).collect()
}

/// The `f64` bit patterns of the floating point numbers of `s`.
fn floats_of(s: &str, ns: Ns) -> Vec<u64> {
    number_texts(s, ns)
        .iter()
        .map(|t| t.iter().collect::<String>().parse::<f64>().unwrap_or(0.0).to_bits())
        .collect()
}

fn floats_for(items: &[String], ns: Ns) -> Vec<Vec<u64>> {
    items.iter().map(|s| floats_of(s, ns)).collect()
}

fn sorted_by(items: &[String], ns: Ns) -> Vec<String> {
    natsorted_by(items, ns, &floats_for(items, ns))
}

fn key(s: &str, ns: Ns) -> Vec<Chunk> {
    natsort_key(s, ns, &floats_of(s, ns))
}

fn cmp_strs(a: &str, b: &str, ns: Ns) -> Ordering {
    compare(a, b, ns, &floats_of(a, ns), &floats_of(b, ns))
}

fn text(s: &str) -> Chunk {
    Chunk::Text(s.chars().collect())
}

#[test]
fn default_int_sort_matches_readme_example() {
    let input = v(&["file10", "file2", "file1"]);
    assert_eq!(natsorted(&input), v(&["file1", "file2", "file10"]));
}

#[test]
fn default_int_sort_of_decimal_looking_strings() {
    // "1.10" is read as [1, ".", 10] under INT, so it sorts by the trailing 10.
    let input = v(&["1.5", "1.10", "1.2"]);
    assert_eq!(natsorted(&input), v(&["1.2", "1.5", "1.10"]));
}

#[test]
fn real_sort_treats_strings_as_floats() {
    let input = v(&["1.5", "1.10", "1.2"]);
    assert_eq!(sorted_by(&input, Ns::real_flags()), v(&["1.10", "1.2", "1.5"]));
}

#[test]
fn signed_negative_numbers_compare_numerically() {
    let input = v(&["item-3", "item-10", "item2"]);
    assert_eq!(sorted_by(&input, Ns::signed_flags()), v(&["item-10", "item-3", "item2"]));
}

#[test]
fn ignorecase_folds_text_chunks() {
    let input = v(&["Banana", "apple", "Cherry"]);
    let ns = Ns::default_flags().with_ignorecase();
    assert_eq!(sorted_by(&input, ns), v(&["apple", "Banana", "Cherry"]));
}

#[test]
fn lowercasefirst_inverts_ascii_case_order() {
    let input = v(&["Apple", "apple"]);
    let default_order = natsorted(&input);
    // Default: uppercase 'A' (65) sorts before lowercase 'a' (97).
    assert_eq!(default_order, v(&["Apple", "apple"]));

    let ns = Ns::default_flags().with_lowercasefirst();
    let lcf_order = sorted_by(&input, ns);
    assert_eq!(lcf_order, v(&["apple", "Apple"]));
}

#[test]
fn fullwidth_unicode_digits_parse_as_numbers() {
    // U+FF11 U+FF10 = fullwidth "10"
    let fullwidth_ten = "\u{FF11}\u{FF10}";
    let input = v(&[fullwidth_ten, "2", "1"]);
    assert_eq!(natsorted(&input), v(&["1", "2", fullwidth_ten]));
}

#[test]
fn key_alternates_starting_with_text_chunk() {
    let k = key("num10", Ns::default_flags());
    assert_eq!(k, vec![text("num"), Chunk::Int(10)]);
}

#[test]
fn empty_string_produces_single_empty_text_chunk() {
    let k = key("", Ns::default_flags());
    assert_eq!(k, vec![text("")]);
}

#[test]
fn compare_matches_natsorted_ordering() {
    assert_eq!(cmp_strs("file2", "file10", Ns::default_flags()), Ordering::Less);
    assert_eq!(cmp_strs("file10", "file10", Ns::default_flags()), Ordering::Equal);
}

#[test]
fn signed_flag_does_not_treat_hyphen_as_sign_without_digit() {
    let k = key("item-", Ns::signed_flags());
    assert_eq!(k, vec![text("item-")]);
}

#[test]
fn real_mode_parses_exponent_notation() {
    let ns = Ns::real_flags();
    let input = v(&["1e3", "1e10", "1e2"]);
    assert_eq!(sorted_by(&input, ns), v(&["1e2", "1e3", "1e10"]));
}

#[test]
fn real_mode_rejects_dangling_exponent_sign() {
    let k = key("1e", Ns::real_flags());
    assert_eq!(k, vec![text(""), Chunk::Float(1.0f64.to_bits()), text("e")]);
}

#[test]
fn groupletters_sorts_case_insensitively_first_then_by_case() {
    let ns = Ns::default_flags().with_groupletters();
    let input = v(&["b", "B", "a", "A"]);
    let sorted = sorted_by(&input, ns);
    assert_eq!(sorted, v(&["A", "a", "B", "b"]));
}

#[test]
fn natsorted_is_stable_on_equal_keys() {
    let ns = Ns::default_flags().with_ignorecase();
    let input = v(&["Apple", "APPLE", "apple"]);
    assert_eq!(sorted_by(&input, ns), v(&["Apple", "APPLE", "apple"]));
}

#[test]
fn arabic_indic_digits_parse_as_numbers() {
    let arabic_twelve = "\u{0661}\u{0662}";
    let input = v(&[arabic_twelve, "3", "1"]);
    assert_eq!(natsorted(&input), v(&["1", "3", arabic_twelve]));
}

#[test]
fn empty_input_slice_sorts_to_empty() {
    let input: Vec<String> = v(&[]);
    assert_eq!(natsorted(&input), v(&[]));
}

#[test]
fn single_item_slice_is_unchanged() {
    let input = v(&["only"]);
    assert_eq!(natsorted(&input), v(&["only"]));
}

#[test]
fn realsorted_uses_signed_floats() {
    let input = v(&["x1.5", "x-2.5", "x1.25", "x+0.5"]);
    let floats = floats_for(&input, Ns::real_flags());
    assert_eq!(realsorted(&input, &floats), v(&["x-2.5", "x+0.5", "x1.25", "x1.5"]));
}
