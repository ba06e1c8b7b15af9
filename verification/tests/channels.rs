use svd_compress::compress::{approximate, ApproxMode, Approximation, SvdApproxError};
use svd_compress::imagewrapper::{GreyImageWrapper, RgbImageWrapper};
use svd_compress::matrix::Matrix;

fn filled(rows: usize, cols: usize, value: i32) -> Matrix<i32> {
    Matrix::from_columns(rows, vec![vec![value; rows]; cols]).unwrap()
}

fn colour() -> RgbImageWrapper<i32> {
    RgbImageWrapper { mats: [filled(2, 3, 1), filled(2, 3, 2), filled(2, 3, 3)], width: 3, height: 2 }
}

/// The outcome of a channel whose approximation needs no decomposition.
fn outcome(channel: &Matrix<i32>, rank: usize) -> Result<Matrix<i32>, SvdApproxError> {
    match approximate(channel, rank, ApproxMode::Best)? {
        Approximation::Unchanged(same) => Ok(same),
        Approximation::Truncated(_) => unreachable!(),
    }
}

#[test]
fn grey_image_takes_the_approximation_and_keeps_its_size() {
    let image = GreyImageWrapper { mat: filled(2, 3, 1), width: 3, height: 2 };
    let made = image.assemble(Ok(filled(2, 3, 9))).unwrap();
    assert_eq!(made, GreyImageWrapper { mat: filled(2, 3, 9), width: 3, height: 2 });
}

#[test]
fn grey_image_hands_the_failure_on() {
    let image = GreyImageWrapper { mat: filled(2, 3, 1), width: 3, height: 2 };
    assert_eq!(
        image.assemble(Err(SvdApproxError::InvalidRank(2, 7))),
        Err(SvdApproxError::InvalidRank(2, 7))
    );
    assert_eq!(
        image.assemble(Err(SvdApproxError::ComputeReqFailed)),
        Err(SvdApproxError::ComputeReqFailed)
    );
}

#[test]
fn colour_image_keeps_the_order_of_its_channels() {
    let image = colour();
    let made = image.assemble(Ok(filled(2, 3, 7)), Ok(filled(2, 3, 8)), Ok(filled(2, 3, 9))).unwrap();
    assert_eq!(made.mats[0], filled(2, 3, 7));
    assert_eq!(made.mats[1], filled(2, 3, 8));
    assert_eq!(made.mats[2], filled(2, 3, 9));
    assert_eq!(made.width, 3);
    assert_eq!(made.height, 2);
}

#[test]
fn colour_image_reports_the_first_failure() {
    let image = colour();
    let a = SvdApproxError::InvalidRank(2, 5);
    let b = SvdApproxError::ComputeReqFailed;
    let c = SvdApproxError::InvalidRank(3, 5);
    assert_eq!(image.assemble(Err(a), Err(b), Err(c)), Err(a));
    assert_eq!(image.assemble(Ok(filled(2, 3, 7)), Err(b), Err(c)), Err(b));
    assert_eq!(image.assemble(Ok(filled(2, 3, 7)), Ok(filled(2, 3, 8)), Err(c)), Err(c));
    assert_eq!(image.assemble(Err(a), Ok(filled(2, 3, 8)), Ok(filled(2, 3, 9))), Err(a));
}

#[test]
fn mismatched_middle_channel_fails_the_whole_image() {
    // The middle channel is 2 x 1, so rank 2 is beyond it; the others are 2 x 2.
    let image = RgbImageWrapper {
        mats: [filled(2, 2, 1), filled(2, 1, 2), filled(2, 2, 3)],
        width: 2,
        height: 2,
    };
    let red = outcome(&image.mats[0], 2);
    let green = outcome(&image.mats[1], 2);
    let blue = outcome(&image.mats[2], 2);
    assert!(red.is_ok());
    assert_eq!(green, Err(SvdApproxError::InvalidRank(1, 2)));
    assert!(blue.is_ok());
    assert_eq!(image.assemble(red, green, blue), Err(SvdApproxError::InvalidRank(1, 2)));
}
