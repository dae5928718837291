use webcam_diff::store::{DualTextureStore, StoreError};

fn frame(len: usize, b: u8) -> Vec<u8> {
    vec![b; len]
}

#[test]
fn new_store_is_zero() {
    let s = DualTextureStore::new(4, 2);
    assert_eq!(s.frame_len(), 32);
    assert_eq!(s.width(), 4);
    assert_eq!(s.height(), 2);
    assert_eq!(s.current(), &[0u8; 32][..]);
    assert_eq!(s.previous(), &[0u8; 32][..]);
}

#[test]
fn first_update_keeps_zero_previous() {
    let mut s = DualTextureStore::new(2, 2);
    let f1 = frame(16, 7);
    assert_eq!(s.update(&f1), Ok(()));
    assert_eq!(s.current(), &f1[..]);
    assert_eq!(s.previous(), &[0u8; 16][..]);
}

#[test]
fn successive_updates_lag_by_one() {
    let mut s = DualTextureStore::new(2, 2);
    let frames: Vec<Vec<u8>> = (1u8..=5).map(|b| frame(16, b)).collect();
    for k in 0..frames.len() {
        assert_eq!(s.update(&frames[k]), Ok(()));
        assert_eq!(s.current(), &frames[k][..]);
        if k >= 1 {
            assert_eq!(s.previous(), &frames[k - 1][..]);
        } else {
            assert_eq!(s.previous(), &[0u8; 16][..]);
        }
    }
}

#[test]
fn identical_frame_still_shifts() {
    let mut s = DualTextureStore::new(1, 1);
    let a = vec![1u8, 2, 3, 4];
    let b = vec![9u8, 9, 9, 9];
    s.update(&a).unwrap();
    s.update(&b).unwrap();
    s.update(&b).unwrap();
    assert_eq!(s.current(), &b[..]);
    assert_eq!(s.previous(), &b[..]);
    s.update(&a).unwrap();
    assert_eq!(s.previous(), &b[..]);
    assert_eq!(s.current(), &a[..]);
}

#[test]
fn wrong_length_is_refused_and_changes_nothing() {
    let mut s = DualTextureStore::new(2, 1);
    let a = frame(8, 3);
    s.update(&a).unwrap();
    assert_eq!(
        s.update(&frame(7, 5)),
        Err(StoreError::WrongLength { expected: 8, actual: 7 })
    );
    assert_eq!(
        s.update(&frame(9, 5)),
        Err(StoreError::WrongLength { expected: 8, actual: 9 })
    );
    assert_eq!(s.update(&[]), Err(StoreError::WrongLength { expected: 8, actual: 0 }));
    assert_eq!(s.current(), &a[..]);
    assert_eq!(s.previous(), &[0u8; 8][..]);
}

#[test]
fn empty_resolution_accepts_empty_frame() {
    let mut s = DualTextureStore::new(0, 10);
    assert_eq!(s.update(&[]), Ok(()));
    assert_eq!(s.update(&[1]), Err(StoreError::WrongLength { expected: 0, actual: 1 }));
}

#[test]
fn current_and_previous_have_frame_length() {
    let mut s = DualTextureStore::new(3, 5);
    assert_eq!(s.current().len(), 60);
    assert_eq!(s.previous().len(), 60);
    let same = s.current().to_vec();
    assert_eq!(s.update(&same), Ok(()));
    assert_eq!(s.previous(), &same[..]);
}
