//! Images as sets of channel matrices, and how approximated channels are put
//! back into an image.

use vstd::prelude::*;
use crate::error::SvdApproxError;
use crate::matrix::Matrix;

verus! {

/// A greyscale image: one channel and the size of the picture.
#[derive(Debug, PartialEq)]
pub struct GreyImageWrapper<T> {
    /// The intensities, one row of the matrix for each row of pixels.
    pub mat: Matrix<T>,
    /// The width of the picture in pixels.
    pub width: usize,
    /// The height of the picture in pixels.
    pub height: usize,
}

/// A colour image: three channels and the size of the picture.
#[derive(Debug, PartialEq)]
pub struct RgbImageWrapper<T> {
    /// The red, green and blue intensities, in this order.
    pub mats: [Matrix<T>; 3],
    /// The width of the picture in pixels.
    pub width: usize,
    /// The height of the picture in pixels.
    pub height: usize,
}

impl<T> GreyImageWrapper<T> {
    /// The image that the approximation of the channel makes. A failure of the
    /// approximation is handed on as it is.
    pub open spec fn assembled(self, outcome: Result<Matrix<T>, SvdApproxError>) -> Result<
        GreyImageWrapper<T>,
        SvdApproxError,
    > {
        match outcome {
            Ok(mat) => Ok(GreyImageWrapper { mat, width: self.width, height: self.height }),
            Err(e) => Err(e),
        }
    }

    /// Puts the approximation of the channel in place of the channel. The size of
    /// the picture is kept; a failure of the approximation is handed on as it is.
    pub fn assemble(&self, outcome: Result<Matrix<T>, SvdApproxError>) -> (image: Result<
        GreyImageWrapper<T>,
        SvdApproxError,
    >)
        ensures
            image == self.assembled(outcome),
    {
        match outcome {
            Ok(mat) => Ok(GreyImageWrapper { mat, width: self.width, height: self.height }),
            Err(e) => Err(e),
        }
    }
}

impl<T> RgbImageWrapper<T> {
    /// The image that the approximations of the three channels make.
    ///
    /// Where every channel went through, the image holds the approximations in
    /// the order of the channels and keeps the size of the picture. Where one
    /// did not, there is no image: the failure of the first such channel is
    /// handed on as it is.
    pub open spec fn assembled(
        self,
        red: Result<Matrix<T>, SvdApproxError>,
        green: Result<Matrix<T>, SvdApproxError>,
        blue: Result<Matrix<T>, SvdApproxError>,
    ) -> Result<RgbImageWrapper<T>, SvdApproxError> {
        match (red, green, blue) {
            (Err(e), _, _) => Err(e),
            (Ok(_), Err(e), _) => Err(e),
            (Ok(_), Ok(_), Err(e)) => Err(e),
            (Ok(r), Ok(g), Ok(b)) => Ok(
                RgbImageWrapper { mats: [r, g, b], width: self.width, height: self.height },
            ),
        }
    }

    /// A channel that fails makes the image fail. Whatever the size of the
    /// picture and the outcome of the later channels, the failure handed on is
    /// that of the first channel that failed: no image is made of the channels
    /// that went through. An image is made only where all three went through.
    pub proof fn lemma_first_failure_is_handed_on(
        self,
        red: Result<Matrix<T>, SvdApproxError>,
        green: Result<Matrix<T>, SvdApproxError>,
        blue: Result<Matrix<T>, SvdApproxError>,
    )
        ensures
            self.assembled(red, green, blue) is Ok <==> red is Ok && green is Ok && blue is Ok,
            red is Err ==> self.assembled(red, green, blue) == Err::<Self, _>(red->Err_0),
            red is Ok && green is Err ==> self.assembled(red, green, blue) == Err::<Self, _>(
                green->Err_0,
            ),
            red is Ok && green is Ok && blue is Err ==> self.assembled(red, green, blue) == Err::<
                Self,
                _,
            >(blue->Err_0),
    {
    }

    /// A channel that cannot have the requested rank keeps the image from being
    /// compressed. Where the red channel went through and the rank is refused
    /// for the green channel, the image fails with the refusal of the green
    /// channel, whatever became of the blue one.
    pub proof fn lemma_refused_channel_fails_image(
        self,
        rank: usize,
        red: Result<Matrix<T>, SvdApproxError>,
        blue: Result<Matrix<T>, SvdApproxError>,
    )
        requires
            red is Ok,
            rank < 1 || rank > self.mats[1]@.size(),
        ensures
            self.assembled(
                red,
                Err(SvdApproxError::InvalidRank(self.mats[1]@.size() as usize, rank)),
                blue,
            ) == Err::<Self, _>(
                SvdApproxError::InvalidRank(self.mats[1]@.size() as usize, rank),
            ),
    {
    }

    /// Puts the approximations of the three channels in place of the channels,
    /// or hands on the failure of the first channel that failed.
    pub fn assemble(
        &self,
        red: Result<Matrix<T>, SvdApproxError>,
        green: Result<Matrix<T>, SvdApproxError>,
        blue: Result<Matrix<T>, SvdApproxError>,
    ) -> (image: Result<RgbImageWrapper<T>, SvdApproxError>)
        ensures
            image == self.assembled(red, green, blue),
    {
        let red = match red {
            Ok(mat) => mat,
            Err(e) => { return Err(e); },
        };
        let green = match green {
            Ok(mat) => mat,
            Err(e) => { return Err(e); },
        };
        let blue = match blue {
            Ok(mat) => mat,
            Err(e) => { return Err(e); },
        };
        Ok(RgbImageWrapper { mats: [red, green, blue], width: self.width, height: self.height })
    }
}

} // verus!
