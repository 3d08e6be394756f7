//! Paper sizes of the ISO A series and their dimensions.

use crate::errors::{err_invalid_paper_format, invalid_paper_format_message, HtopError};
use vstd::prelude::*;

verus! {

/// Paper size definitions.
#[derive(Debug, Clone, Copy, PartialEq, Eq, Structural)]
pub enum PaperSize {
    A0,
    A1,
    A2,
    A3,
    A4,
    A5,
    A6,
}

/// The size that a paper token names: "A0" to "A6", matched exactly.
pub open spec fn paper_size_of(token: Seq<char>) -> Option<PaperSize> {
    if token.len() == 2 && token[0] == 'A' {
        let d = token[1];
        if d == '0' {
            Some(PaperSize::A0)
        } else if d == '1' {
            Some(PaperSize::A1)
        } else if d == '2' {
            Some(PaperSize::A2)
        } else if d == '3' {
            Some(PaperSize::A3)
        } else if d == '4' {
            Some(PaperSize::A4)
        } else if d == '5' {
            Some(PaperSize::A5)
        } else if d == '6' {
            Some(PaperSize::A6)
        } else {
            None
        }
    } else {
        None
    }
}

/// Width and height in millimetres, portrait, after ISO 216.
pub open spec fn dimensions_mm(size: PaperSize) -> (nat, nat) {
    match size {
        PaperSize::A0 => (841, 1189),
        PaperSize::A1 => (594, 841),
        PaperSize::A2 => (420, 594),
        PaperSize::A3 => (297, 420),
        PaperSize::A4 => (210, 297),
        PaperSize::A5 => (148, 210),
        PaperSize::A6 => (105, 148),
    }
}

impl PaperSize {
    /// Resolves a paper token; anything but "A0" to "A6" is refused with an
    /// error that names the token.
    pub fn from_token(value: &str) -> (r: Result<PaperSize, HtopError>)
        ensures
            match paper_size_of(value@) {
                Some(size) => r == Ok::<PaperSize, HtopError>(size),
                None => r is Err && r->Err_0@ == invalid_paper_format_message(value@),
            },
    {
        if value.unicode_len() == 2 && value.get_char(0) == 'A' {
            let d = value.get_char(1);
            if d == '0' {
                return Ok(PaperSize::A0);
            } else if d == '1' {
                return Ok(PaperSize::A1);
            } else if d == '2' {
                return Ok(PaperSize::A2);
            } else if d == '3' {
                return Ok(PaperSize::A3);
            } else if d == '4' {
                return Ok(PaperSize::A4);
            } else if d == '5' {
                return Ok(PaperSize::A5);
            } else if d == '6' {
                return Ok(PaperSize::A6);
            }
        }
        Err(err_invalid_paper_format(value))
    }
}

/// Paper dimensions in whole millimetres, portrait.
#[derive(Debug, Clone, Copy, PartialEq, Eq, Structural)]
pub struct Paper {
    /// Paper width in millimetres.
    width_mm: u32,
    /// Paper height in millimetres.
    height_mm: u32,
}

impl Paper {
    pub closed spec fn spec_width(&self) -> u32 {
        self.width_mm
    }

    pub closed spec fn spec_height(&self) -> u32 {
        self.height_mm
    }

    /// Creates a paper of the given size; portrait, so narrower than high.
    pub fn new(paper_size: PaperSize) -> (r: Self)
        ensures
            (r.width() as nat, r.height() as nat) == dimensions_mm(paper_size),
            r.width() < r.height(),
    {
        let (width_mm, height_mm): (u32, u32) = match paper_size {
            PaperSize::A0 => (841, 1189),
            PaperSize::A1 => (594, 841),
            PaperSize::A2 => (420, 594),
            PaperSize::A3 => (297, 420),
            PaperSize::A4 => (210, 297),
            PaperSize::A5 => (148, 210),
            PaperSize::A6 => (105, 148),
        };
        Self { width_mm, height_mm }
    }

    /// Returns the paper width in millimetres.
    #[verifier::when_used_as_spec(spec_width)]
    pub fn width(&self) -> (r: u32)
        ensures
            r == self.spec_width(),
    {
        self.width_mm
    }

    /// Returns the paper height in millimetres.
    #[verifier::when_used_as_spec(spec_height)]
    pub fn height(&self) -> (r: u32)
        ensures
            r == self.spec_height(),
    {
        self.height_mm
    }
}

} // verus!
