//! Splitting of `<left><separator><right>` arguments such as `600x400` or `1.05,2.51`.
use vstd::prelude::*;
use vstd::string::StrSliceExecFns;

verus! {

/// True when `i` is the position of the first `c` in `s`.
pub open spec fn is_first_of(s: Seq<char>, c: char, i: int) -> bool {
    &&& 0 <= i < s.len()
    &&& s[i] == c
    &&& forall|j: int| 0 <= j < i ==> s[j] != c
}

/// The text before and after the first `c` in `s`, or `None` when `s` holds no `c`.
pub open spec fn split_at_first(s: Seq<char>, c: char) -> Option<(Seq<char>, Seq<char>)> {
    if exists|i: int| is_first_of(s, c, i) {
        let i = choose|i: int| is_first_of(s, c, i);
        Some((s.subrange(0, i), s.subrange(i + 1, s.len() as int)))
    } else {
        None
    }
}

/// Splits `s` at the first `separator`: the text before it and the text after it.
pub fn split_pair(s: &str, separator: char) -> (r: Option<(&str, &str)>)
    ensures
        split_at_first(s@, separator) == match r {
            None => None,
            Some(p) => Some((p.0@, p.1@)),
        },
{
    let n = s.unicode_len();
    let mut k: usize = 0;
    while k < n
        invariant
            n == s@.len(),
            k <= n,
            forall|j: int| 0 <= j < k ==> s@[j] != separator,
        decreases n - k,
    {
        if s.get_char(k) == separator {
            assert(is_first_of(s@, separator, k as int));
            assert forall|i: int| is_first_of(s@, separator, i) implies i == k by {
                if i < k {
                    assert(s@[i] != separator);
                }
                if i > k {
                    assert(s@[k as int] != separator);
                }
            }
            let left = s.substring_char(0, k);
            let right = s.substring_char(k + 1, n);
            return Some((left, right));
        }
        k = k + 1;
    }
    assert(!exists|i: int| is_first_of(s@, separator, i));
    None
}

/// Relies on `str::parse` (the standard `FromStr` impl of `T`): the text read as a
/// value of `T`, or `None` where `T` refuses it.
#[verifier::external_body]
fn parse_value<T: std::str::FromStr>(s: &str) -> (r: Option<T>) {
    s.parse::<T>().ok()
}

/// The pair of two parsed halves: present only when both are.
pub fn pair_of<T>(left: Option<T>, right: Option<T>) -> (r: Option<(T, T)>)
    ensures
        r == match (left, right) {
            (Some(a), Some(b)) => Some((a, b)),
            _ => None,
        },
{
    match (left, right) {
        (Some(a), Some(b)) => Some((a, b)),
        _ => None,
    }
}

/// Parses `s` as two values of `T` around the first `separator`, as in `600x400`.
/// `None` when `s` holds no separator; otherwise each half is handed to `T`'s parser
/// and the pair is present only when both halves parse.
pub fn parse_pair<T: std::str::FromStr>(s: &str, separator: char) -> (r: Option<(T, T)>)
    ensures
        split_at_first(s@, separator) is None ==> r is None,
        r is Some ==> split_at_first(s@, separator) is Some,
{
    match split_pair(s, separator) {
        None => None,
        Some((left, right)) => pair_of(parse_value::<T>(left), parse_value::<T>(right)),
    }
}

} // verus!
