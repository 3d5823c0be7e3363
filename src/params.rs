use vstd::prelude::*;

verus! {

/// A point-cloud request: the pixel rectangle, the iteration budget per
/// pixel and the zoom of the plane window.
#[derive(Clone, Copy, Debug, PartialEq, Eq, Structural)]
pub struct RequestParams {
    pub width: i32,
    pub height: i32,
    pub max_iter: i32,
    pub scale_factor: i32,
}

/// Why a request was refused.
#[derive(Clone, Copy, Debug, PartialEq, Eq, Structural)]
pub enum InvalidArgument {
    NegativeWidth,
    NegativeHeight,
    NonPositiveIterations,
    ZeroScaleFactor,
}

impl RequestParams {
    /// The first rule of a request that these parameters break, if any.
    pub open spec fn violation(self) -> Option<InvalidArgument> {
        if self.width < 0 {
            Some(InvalidArgument::NegativeWidth)
        } else if self.height < 0 {
            Some(InvalidArgument::NegativeHeight)
        } else if self.max_iter < 1 {
            Some(InvalidArgument::NonPositiveIterations)
        } else if self.scale_factor == 0 {
            Some(InvalidArgument::ZeroScaleFactor)
        } else {
            None
        }
    }

    pub open spec fn is_valid(self) -> bool {
        self.violation() is None
    }

    /// Number of pixels of the rectangle; both bounds are inclusive.
    pub open spec fn pixel_count(self) -> nat {
        ((self.width + 1) * (self.height + 1)) as nat
    }

    pub fn new(width: i32, height: i32, max_iter: i32, scale_factor: i32) -> (r: RequestParams)
        ensures
            r == (RequestParams { width, height, max_iter, scale_factor }),
    {
        RequestParams { width, height, max_iter, scale_factor }
    }

    /// Checks the request: a width or height below zero, an iteration budget
    /// below one and a zero scale factor are refused, in that order.
    pub fn validate(&self) -> (r: Result<(), InvalidArgument>)
        ensures
            r == (match self.violation() {
                Some(e) => Err(e),
                None => Ok(()),
            }),
    {
        if self.width < 0 {
            Err(InvalidArgument::NegativeWidth)
        } else if self.height < 0 {
            Err(InvalidArgument::NegativeHeight)
        } else if self.max_iter < 1 {
            Err(InvalidArgument::NonPositiveIterations)
        } else if self.scale_factor == 0 {
            Err(InvalidArgument::ZeroScaleFactor)
        } else {
            Ok(())
        }
    }
}

} // verus!
