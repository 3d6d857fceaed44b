use mandelzoom::pairs::{pair_of, parse_pair, split_pair};

#[test]
fn test_parse_pair() {
    assert_eq!(parse_pair::<i32>("",        ','), None);
    assert_eq!(parse_pair::<i32>("10,",     ','), None);
    assert_eq!(parse_pair::<i32>(",10",     ','), None);
    assert_eq!(parse_pair::<i32>("10,20",   ','), Some((10, 20)));
    assert_eq!(parse_pair::<i32>("10,20xy", ','), None);
    assert_eq!(parse_pair::<f64>("0.5x",    'x'), None);
    assert_eq!(parse_pair::<f64>("0.5x1.5", 'x'), Some((0.5, 1.5)));
}

#[test]
fn parse_bounds_and_centre() {
    assert_eq!(parse_pair::<usize>("600x400", 'x'), Some((600, 400)));
    assert_eq!(parse_pair::<f64>("1.05,2.51", ','), Some((1.05, 2.51)));
    assert_eq!(parse_pair::<f64>("1.05:2.51", ','), None);
    assert_eq!(parse_pair::<usize>("600x400x2", 'x'), None);
    assert_eq!(parse_pair::<i32>("-3,4", ','), Some((-3, 4)));
}

#[test]
fn split_at_first_separator() {
    assert_eq!(split_pair("600x400", 'x'), Some(("600", "400")));
    assert_eq!(split_pair("a,b,c", ','), Some(("a", "b,c")));
    assert_eq!(split_pair(",", ','), Some(("", "")));
    assert_eq!(split_pair("", ','), None);
    assert_eq!(split_pair("abc", ','), None);
    assert_eq!(split_pair("é,ü", ','), Some(("é", "ü")));
}

#[test]
fn pair_needs_both_halves() {
    assert_eq!(pair_of(Some(1), Some(2)), Some((1, 2)));
    assert_eq!(pair_of::<i32>(None, Some(2)), None);
    assert_eq!(pair_of::<i32>(Some(1), None), None);
    assert_eq!(pair_of::<i32>(None, None), None);
}
