use largo::merge::Merge;

#[derive(Debug, PartialEq, Eq)]
struct S {
    a: i32,
    b: Option<i32>,
}

fn merge_left(s: &mut S, other: S) {
    s.a.merge_left(other.a);
    s.b.merge_left(other.b);
}

fn merge_right(s: &mut S, other: S) {
    s.a.merge_right(other.a);
    s.b.merge_right(other.b);
}

#[test]
fn merge_left_works1() {
    let mut s1 = S { a: 1, b: None };
    let s2 = S { a: 3, b: Some(4) };
    merge_left(&mut s1, s2);
    assert_eq!(s1, S { a: 1, b: Some(4) })
}

#[test]
fn merge_left_works2() {
    let mut s1 = S { a: 1, b: Some(2) };
    let s2 = S { a: 3, b: Some(4) };
    merge_left(&mut s1, s2);
    assert_eq!(s1, S { a: 1, b: Some(2) })
}

#[test]
fn merge_right_works1() {
    let mut s1 = S { a: 1, b: None };
    let s2 = S { a: 3, b: Some(4) };
    merge_right(&mut s1, s2);
    assert_eq!(s1, S { a: 3, b: Some(4) })
}

#[test]
fn merge_right_works2() {
    let mut s1 = S { a: 1, b: Some(2) };
    let s2 = S { a: 3, b: Some(4) };
    merge_right(&mut s1, s2);
    assert_eq!(s1, S { a: 3, b: Some(4) })
}

#[test]
fn merges_return_the_receiver_for_chaining() {
    let mut a: Option<u8> = None;
    a.merge_left(Some(1)).merge_right(None).merge_right(Some(7)).merge_left(Some(9));
    assert_eq!(a, Some(7));
}

#[test]
fn lists_are_appended_by_either_merge() {
    let mut v = vec![1u8, 2];
    v.merge_left(vec![3]);
    assert_eq!(v, vec![1, 2, 3]);
    v.merge_right(vec![4, 5]);
    assert_eq!(v, vec![1, 2, 3, 4, 5]);
}

#[test]
fn a_list_shows_why_idempotence_is_a_law_of_settings_only() {
    let mut once = vec![1u8];
    once.merge_left(vec![2]);
    let mut twice = vec![1u8];
    twice.merge_left(vec![2]);
    twice.merge_left(vec![2]);
    assert_ne!(once, twice);
}

#[test]
fn scalars_and_slices_keep_left_and_take_right() {
    let mut n = 5u64;
    n.merge_left(6);
    assert_eq!(n, 5);
    n.merge_right(6);
    assert_eq!(n, 6);
    let mut s = "mine";
    s.merge_left("theirs");
    assert_eq!(s, "mine");
    s.merge_right("theirs");
    assert_eq!(s, "theirs");
    let mut i = -3i128;
    i.merge_right(i128::MIN);
    assert_eq!(i, i128::MIN);
}

#[test]
fn option_merge_laws_on_every_pair() {
    let values = [None, Some(1u8), Some(2u8)];
    for a in values {
        for b in values {
            let mut left = a;
            left.merge_left(b);
            let mut again = left;
            again.merge_left(b);
            assert_eq!(again, left);
            let mut dual = b;
            dual.merge_right(a);
            assert_eq!(left, dual);
            let mut right = a;
            right.merge_right(b);
            assert_eq!(right, b.or(a));
        }
    }
}
