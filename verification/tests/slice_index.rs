use unsafe_cell_slice::UnsafeCellSlice;

#[test]
fn slice_index_usize() {
    let data = UnsafeCellSlice::new(vec![0i64, 1i64]);
    let data_a = data.index_mut(0);
    let data_b = data.index_mut(1);
    assert_eq!(*data.read(&data_a, 0), 0);
    assert_eq!(*data.read(&data_b, 0), 1);
    assert!(data.get_mut(0).is_some());
    assert!(data.get_mut(1).is_some());
    assert!(data.get_mut(2).is_none());
}

#[test]
fn slice_index_range() {
    let data = UnsafeCellSlice::new(vec![0i64, 1i64, 2i64]);
    {
        let data_ab = data.index_mut(0..2);
        assert_eq!(data_ab.len, 2);
        assert_eq!(data.copy_view(&data_ab), [0, 1]);
    }
    {
        let data_a = data.index_mut(0..1);
        assert_eq!(data_a.len, 1);
        assert_eq!(data.copy_view(&data_a), [0]);
    }
    {
        let data_b = data.index_mut(1..2);
        assert_eq!(data_b.len, 1);
        assert_eq!(data.copy_view(&data_b), [1]);
    }
    assert_eq!(data.get_mut(0..2).unwrap().len, 2);
    assert_eq!(data.get_mut(0..1).unwrap().len, 1);
    assert_eq!(data.get_mut(1..2).unwrap().len, 1);
    assert_eq!(data.get_mut(0..3).unwrap().len, 3);
    assert!(data.get_mut(0..4).is_none());
    assert!(data.get_mut(2..4).is_none());
    assert!(data.get_mut(2..0).is_none());
}

#[test]
fn slice_index_range_from() {
    let data = UnsafeCellSlice::new(vec![0i64, 1i64, 2i64]);
    {
        let data_ab = data.index_mut(0..);
        assert_eq!(data_ab.len, 3);
        assert_eq!(data.copy_view(&data_ab), [0, 1, 2]);
    }
    {
        let data_b = data.index_mut(1..);
        assert_eq!(data_b.len, 2);
        assert_eq!(data.copy_view(&data_b), [1, 2]);
    }
    {
        let data_b = data.index_mut(2..);
        assert_eq!(data_b.len, 1);
        assert_eq!(data.copy_view(&data_b), [2]);
    }
    assert_eq!(data.get_mut(0..).unwrap().len, 3);
    assert_eq!(data.get_mut(1..).unwrap().len, 2);
    assert!(data.get_mut(2..).is_some());
    assert_eq!(data.get_mut(3..).unwrap().len, 0);
    assert!(data.get_mut(4..).is_none());
}

#[test]
fn slice_index_range_full() {
    {
        let data = UnsafeCellSlice::new(vec![0i64, 1i64]);
        let data_ab = data.index_mut(..);
        assert_eq!(data_ab.len, 2);
        assert_eq!(data.copy_view(&data_ab), [0, 1]);
        assert_eq!(data.get_mut(..).unwrap().len, 2);
    }
    {
        let data: UnsafeCellSlice<u8> = UnsafeCellSlice::new(vec![]);
        assert_eq!(data.get_mut(..).unwrap().len, 0);
    }
}

#[test]
fn slice_index_range_inclusive() {
    let data = UnsafeCellSlice::new(vec![0i64, 1i64, 2i64, 3i64]);
    {
        let data_abc = data.index_mut(0..=2);
        assert_eq!(data_abc.len, 3);
        assert_eq!(data.copy_view(&data_abc), [0, 1, 2]);
    }
    {
        let data_cd = data.index_mut(2..=3);
        assert_eq!(data_cd.len, 2);
        assert_eq!(data.copy_view(&data_cd), [2, 3]);
    }
    {
        let data_ab = data.index_mut(1..=2);
        assert_eq!(data_ab.len, 2);
        assert_eq!(data.copy_view(&data_ab), [1, 2]);
    }
    {
        let data_a = data.index_mut(0..=0);
        assert_eq!(data_a.len, 1);
        assert_eq!(data.copy_view(&data_a), [0]);
    }
    {
        let data_b = data.index_mut(1..=1);
        assert_eq!(data_b.len, 1);
        assert_eq!(data.copy_view(&data_b), [1]);
    }
    assert_eq!(data.get_mut(0..=1).unwrap().len, 2);
    assert_eq!(data.get_mut(1..=1).unwrap().len, 1);
    assert!(data.get_mut(0..=4).is_none());
    assert!(data.get_mut(2..=4).is_none());
    assert!(data.get_mut(2..=0).is_none());
}

#[test]
fn slice_index_range_to() {
    let data = UnsafeCellSlice::new(vec![0i64, 1i64]);
    {
        let data_ab = data.index_mut(..2);
        assert_eq!(data_ab.len, 2);
        assert_eq!(data.copy_view(&data_ab), [0, 1]);
    }
    {
        let data_a = data.index_mut(..1);
        assert_eq!(data_a.len, 1);
        assert_eq!(data.copy_view(&data_a), [0]);
    }
    {
        let data_0 = data.index_mut(..0);
        assert_eq!(data_0.len, 0);
        assert_eq!(data.copy_view(&data_0), [0i64; 0]);
    }
    assert_eq!(data.get_mut(..2).unwrap().len, 2);
    assert!(data.get_mut(..3).is_none());
}

#[test]
fn slice_index_range_to_inclusive() {
    let data = UnsafeCellSlice::new(vec![0i64, 1i64, 2i64, 3i64]);
    {
        let data_abcd = data.index_mut(..=3);
        assert_eq!(data_abcd.len, 4);
        assert_eq!(data.copy_view(&data_abcd), [0, 1, 2, 3]);
    }
    {
        let data_abc = data.index_mut(..=2);
        assert_eq!(data_abc.len, 3);
        assert_eq!(data.copy_view(&data_abc), [0, 1, 2]);
    }
    {
        let data_ab = data.index_mut(..=1);
        assert_eq!(data_ab.len, 2);
        assert_eq!(data.copy_view(&data_ab), [0, 1]);
    }
    {
        let data_a = data.index_mut(..=0);
        assert_eq!(data_a.len, 1);
        assert_eq!(data.copy_view(&data_a), [0]);
    }
    assert_eq!(data.get_mut(..=0).unwrap().len, 1);
    assert_eq!(data.get_mut(..=1).unwrap().len, 2);
    assert_eq!(data.get_mut(..=2).unwrap().len, 3);
    assert_eq!(data.get_mut(..=3).unwrap().len, 4);
    assert!(data.get_mut(..=4).is_none());
}
