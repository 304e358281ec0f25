use rsvp_sim::Field;
use rsvp_sim::linguistics::latin_to_arabic_stub;
use rsvp_sim::linguistics::sga_encode_stub;
use rsvp_sim::tiling::random_tiling;

#[test]
fn latin_stub_reverses_and_marks() {
    assert_eq!(latin_to_arabic_stub("abc"), "cba\u{00B7}ar");
    assert_eq!(latin_to_arabic_stub(""), "\u{00B7}ar");
    assert_eq!(latin_to_arabic_stub("a"), "a\u{00B7}ar");
}

#[test]
fn sga_stub_replaces_vowels() {
    assert_eq!(sga_encode_stub("hello"), "h\u{2234}ll\u{2234}");
    assert_eq!(sga_encode_stub("xyz"), "xyz");
    assert_eq!(sga_encode_stub("aeiou"), "\u{2234}\u{2234}\u{2234}\u{2234}\u{2234}");
    assert_eq!(sga_encode_stub("AEIOU"), "AEIOU");
    assert_eq!(sga_encode_stub(""), "");
}

#[test]
fn tiling_has_requested_shape_and_range() {
    let t = random_tiling(4, 5, 3);
    assert_eq!(t.len(), 4);
    for row in &t {
        assert_eq!(row.len(), 5);
        for &v in row {
            assert!(v < 3);
        }
    }
}

#[test]
fn tiling_with_one_label_is_all_zero() {
    let t = random_tiling(3, 3, 1);
    for row in &t {
        for &v in row {
            assert_eq!(v, 0);
        }
    }
}

#[test]
fn field_constructors_and_access() {
    let f = Field::new(2, 3, 42);
    assert_eq!(f.height(), 2);
    assert_eq!(f.width(), 3);
    for y in 0..2 {
        for x in 0..3 {
            assert_eq!(f.at(y, x), 42);
        }
    }

    let g = Field::from_rows(vec![vec![1, 2], vec![3, 4], vec![5, 6]]).expect("rectangular");
    assert_eq!(g.height(), 3);
    assert_eq!(g.width(), 2);
    assert_eq!(g.at(0, 0), 1);
    assert_eq!(g.at(2, 1), 6);

    assert!(Field::from_rows(vec![vec![1, 2], vec![3]]).is_none());

    let empty = Field::from_rows(Vec::new()).expect("empty is rectangular");
    assert_eq!(empty.height(), 0);
    assert_eq!(empty.width(), 0);
}
