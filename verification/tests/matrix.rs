use svd_compress::matrix::Matrix;

fn sample() -> Matrix<i32> {
    // 2 rows, 3 columns:
    //   1 3 5
    //   2 4 6
    Matrix::from_columns(2, vec![vec![1, 2], vec![3, 4], vec![5, 6]]).unwrap()
}

#[test]
fn from_columns_keeps_every_entry() {
    let m = sample();
    assert_eq!(m.nrows(), 2);
    assert_eq!(m.ncols(), 3);
    assert_eq!(m.get(0, 0), Some(1));
    assert_eq!(m.get(1, 0), Some(2));
    assert_eq!(m.get(0, 1), Some(3));
    assert_eq!(m.get(1, 1), Some(4));
    assert_eq!(m.get(0, 2), Some(5));
    assert_eq!(m.get(1, 2), Some(6));
}

#[test]
fn from_columns_refuses_a_short_column() {
    assert_eq!(Matrix::from_columns(2, vec![vec![1, 2], vec![3]]), None);
}

#[test]
fn from_columns_refuses_a_long_column() {
    assert_eq!(Matrix::from_columns(1, vec![vec![1], vec![2, 3]]), None);
}

#[test]
fn from_columns_accepts_no_columns() {
    let m: Matrix<i32> = Matrix::from_columns(4, Vec::new()).unwrap();
    assert_eq!(m.nrows(), 4);
    assert_eq!(m.ncols(), 0);
    assert_eq!(m.get(0, 0), None);
}

#[test]
fn get_outside_the_matrix_is_none() {
    let m = sample();
    assert_eq!(m.get(2, 0), None);
    assert_eq!(m.get(0, 3), None);
    assert_eq!(m.get(2, 3), None);
}

#[test]
fn clone_is_equal_to_its_source() {
    let m = sample();
    let copy = m.clone();
    assert_eq!(copy, m);
    assert_eq!(copy.get(1, 2), Some(6));
}

#[test]
fn column_block_takes_the_named_columns() {
    let m = sample();
    let block = m.column_block(1, 2);
    assert_eq!(block, Matrix::from_columns(2, vec![vec![3, 4], vec![5, 6]]).unwrap());
    let none = m.column_block(3, 0);
    assert_eq!(none.nrows(), 2);
    assert_eq!(none.ncols(), 0);
}

#[test]
fn transpose_swaps_rows_and_columns() {
    let t = sample().transpose();
    assert_eq!(t.nrows(), 3);
    assert_eq!(t.ncols(), 2);
    assert_eq!(t, Matrix::from_columns(3, vec![vec![1, 3, 5], vec![2, 4, 6]]).unwrap());
    assert_eq!(t.transpose(), sample());
}

#[test]
fn diagonal_puts_zero_off_the_diagonal() {
    let d = Matrix::diagonal(&vec![7, 8, 9], 0);
    assert_eq!(
        d,
        Matrix::from_columns(3, vec![vec![7, 0, 0], vec![0, 8, 0], vec![0, 0, 9]]).unwrap()
    );
    let empty: Matrix<i32> = Matrix::diagonal(&Vec::new(), 0);
    assert_eq!(empty.nrows(), 0);
    assert_eq!(empty.ncols(), 0);
}
