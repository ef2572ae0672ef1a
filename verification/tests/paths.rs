use oxidizer::NopHash;
use oxidizer::TreeIndex;
use oxidizer::TreePath;

#[test]
fn vec_segments() {
    let p: Vec<usize> = vec![3, 1, 4];
    assert_eq!(p.segments(), p);
    assert_eq!(p.segment_count(), 3);
    assert_eq!(p.segment(0), 3);
    assert_eq!(p.segment(1), 1);
    assert_eq!(p.segment(2), 4);

    let empty: Vec<usize> = vec![];
    assert_eq!(empty.segments(), empty);
    assert_eq!(empty.segment_count(), 0);
}

#[test]
fn vec_path() {
    let p: Vec<usize> = vec![0, 2];
    assert_eq!(p.path(), p);
    assert_eq!(Vec::<usize>::new().path(), Vec::<usize>::new());
}

#[test]
fn nop_hash_reports_its_seed() {
    let mut h = NopHash(42);
    h.write(&[1, 2, 3]);
    h.write(&[]);
    assert_eq!(h.finish(), 42);
    assert_ne!(NopHash(1).finish(), NopHash(2).finish());
}
