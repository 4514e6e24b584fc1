use binding_pipeline::data_types;
use binding_pipeline::non_primitives;
use binding_pipeline::variables;

#[test]
fn integers_step() {
    assert_eq!(data_types::integers(), (-42, 999_999, 10, 10));
}

#[test]
fn integer_overflow_step() {
    assert_eq!(data_types::integer_overflow(), (255, 255, 0));
}

#[test]
fn booleans_step() {
    assert_eq!(data_types::booleans(), (true, Some(false)));
}

#[test]
fn chars_step() {
    assert_eq!(data_types::chars(), ('\u{2665}', 'A', '\u{1F980}'));
}

#[test]
fn data_types_tuples_step() {
    assert_eq!(data_types::tuples(6.4), ((500, 6.4, 'R'), 6.4));
    assert_eq!(data_types::tuples("any"), ((500, "any", 'R'), "any"));
}

#[test]
fn data_types_arrays_step() {
    assert_eq!(data_types::arrays(), (3, 5));
}

#[test]
fn slices_step() {
    assert_eq!(data_types::slices(), ((1, 2, 3), (2, 3)));
}

#[test]
fn data_types_challenge_step() {
    let (tup, sum) = data_types::challenge();
    assert_eq!(tup, (10, 28, 36));
    assert_eq!(sum, 74);
    assert_eq!(sum as f64 / 3.0, 74.0 / 3.0);
}

#[test]
fn summary_cheatsheet_step() {
    let sheet = data_types::summary_cheatsheet(3.14, 2.0);
    assert_eq!(sheet.a, -100);
    assert_eq!(sheet.b, 3.14);
    assert!(sheet.c);
    assert_eq!(sheet.d, '\u{1F980}');
    assert_eq!(sheet.tup, (1, 2.0, 'c'));
    assert_eq!(sheet.ar, [1, 2, 3]);
    assert_eq!(sheet.slice, vec![2, 3]);
}

#[test]
fn calc_gives_sum_and_product() {
    assert_eq!(non_primitives::calc(10, 20), (30, 200));
    assert_eq!(non_primitives::calc(-3, 4), (1, -12));
    assert_eq!(non_primitives::calc(0, i32::MAX), (i32::MAX, 0));
}

#[test]
fn non_primitives_arrays_step() {
    assert_eq!(non_primitives::arrays(), (20, 2, 0, 10, 50));
}

#[test]
fn non_primitives_tuples_step() {
    assert_eq!(non_primitives::tuples(6.9), ((42, 6.9, 'R'), 42, (30, 200)));
}

#[test]
fn variable_step() {
    assert_eq!(variables::variable(), "Hello");
}

#[test]
fn mutability_step() {
    assert_eq!(variables::mutability(), ("Hello", "6"));
}

#[test]
fn explicit_typing_step() {
    assert_eq!(variables::explicit_typing(), 65538);
}

#[test]
fn shadowing1_step() {
    assert_eq!(variables::shadowing1(), ((5, 6, 12), ("   ", 3)));
}

#[test]
fn shadowing2_step() {
    assert_eq!(variables::shadowing2(), 42);
}

#[test]
fn shadowing3_step() {
    assert_eq!(variables::shadowing3(), ("123", "123", 123));
}

#[test]
fn constant_step() {
    assert_eq!(variables::constant(), 100_000);
    assert_eq!(variables::MAX_POINTS, 100_000);
}

#[test]
fn variable_scope_step() {
    assert_eq!(variables::variable_scope(), (20, 10));
}

#[test]
fn variables_challenge_step() {
    assert_eq!(variables::challenge(), ((0, 1, 2, 3), "Demo counter"));
}
