use vstd::prelude::*;

verus! {

/// A layout descriptor for the bytes of one frame.
pub trait FrameInterpretation {
    /// The number of bytes the layout occupies.
    spec fn required_len(&self) -> nat;

    /// The size computation stays within `usize`.
    spec fn size_fits(&self) -> bool;

    fn required_bytes(&self) -> (r: usize)
        requires
            self.size_fits(),
        ensures
            r as nat == self.required_len(),
    ;
}

/// Phase of the colour filter array: whether the first red pixel sits in the
/// first column / first row.
#[derive(Debug, Clone, Copy, PartialEq, Eq, Structural)]
pub struct CfaDescriptor {
    pub first_is_red_x: bool,
    pub first_is_red_y: bool,
}

impl CfaDescriptor {
    pub fn from_first_red(first_is_red_x: bool, first_is_red_y: bool) -> (r: Self)
        ensures
            r.first_is_red_x == first_is_red_x,
            r.first_is_red_y == first_is_red_y,
    {
        CfaDescriptor { first_is_red_x, first_is_red_y }
    }
}

/// A Bayer-patterned sensor frame, `bit_depth` bits per pixel, packed.
#[derive(Debug, Clone, Copy, PartialEq, Eq, Structural)]
pub struct Raw {
    pub width: u64,
    pub height: u64,
    pub bit_depth: u64,
    pub cfa: CfaDescriptor,
}

impl FrameInterpretation for Raw {
    open spec fn required_len(&self) -> nat {
        (self.width * self.height * self.bit_depth / 8) as nat
    }

    open spec fn size_fits(&self) -> bool {
        &&& self.width <= usize::MAX
        &&& self.height <= usize::MAX
        &&& self.bit_depth <= usize::MAX
        &&& self.width * self.height <= usize::MAX
        &&& self.width * self.height * self.bit_depth <= usize::MAX
    }

    fn required_bytes(&self) -> (r: usize) {
        let area: usize = self.width as usize * self.height as usize;
        let bits: usize = area * self.bit_depth as usize;
        bits / 8
    }
}

impl Raw {
    /// The number of bytes the layout occupies, or `None` where computing it
    /// would leave `usize`.
    pub fn checked_required_bytes(&self) -> (r: Option<usize>)
        ensures
            r == if self.size_fits() {
                Some(self.required_len() as usize)
            } else {
                None::<usize>
            },
    {
        if self.width > usize::MAX as u64 || self.height > usize::MAX as u64 || self.bit_depth
            > usize::MAX as u64 {
            return None;
        }
        match (self.width as usize).checked_mul(self.height as usize) {
            None => None,
            Some(area) => match area.checked_mul(self.bit_depth as usize) {
                None => None,
                Some(bits) => Some(bits / 8),
            },
        }
    }
}

/// A frame of three-channel colour pixels.
#[derive(Debug, Clone, Copy, PartialEq, Eq, Structural)]
pub struct Rgb {
    pub width: u64,
    pub height: u64,
}

impl FrameInterpretation for Rgb {
    open spec fn required_len(&self) -> nat {
        (self.width * self.height) as nat
    }

    open spec fn size_fits(&self) -> bool {
        &&& self.width <= usize::MAX
        &&& self.height <= usize::MAX
        &&& self.width * self.height <= usize::MAX
    }

    fn required_bytes(&self) -> (r: usize) {
        self.width as usize * self.height as usize
    }
}

/// A frame of four-channel colour pixels.
#[derive(Debug, Clone, Copy, PartialEq, Eq, Structural)]
pub struct Rgba {
    pub width: u64,
    pub height: u64,
}

impl FrameInterpretation for Rgba {
    open spec fn required_len(&self) -> nat {
        (self.width * self.height) as nat
    }

    open spec fn size_fits(&self) -> bool {
        &&& self.width <= usize::MAX
        &&& self.height <= usize::MAX
        &&& self.width * self.height <= usize::MAX
    }

    fn required_bytes(&self) -> (r: usize) {
        self.width as usize * self.height as usize
    }
}

/// A fresh vector with the same bytes as `bytes`.
pub fn copy_bytes(bytes: &[u8]) -> (r: Vec<u8>)
    ensures
        r@ == bytes@,
{
    let mut out: Vec<u8> = Vec::with_capacity(bytes.len());
    let mut i: usize = 0;
    while i < bytes.len()
        invariant
            i <= bytes@.len(),
            out@ == bytes@.subrange(0, i as int),
        decreases bytes@.len() - i,
    {
        out.push(bytes[i]);
        i += 1;
    }
    out
}

/// Why a buffer could not be taken as a frame.
#[derive(Debug, Clone, Copy, PartialEq, Eq, Structural)]
pub enum FrameError {
    /// The buffer holds fewer bytes than the layout requires.
    InsufficientData { required: usize, found: usize },
}

/// One frame: its layout and the storage that holds its bytes.
pub struct Frame<Interpretation, Storage> {
    pub interp: Interpretation,
    pub storage: Storage,
}

impl<Interpretation: FrameInterpretation> Frame<Interpretation, Vec<u8>> {
    /// Copies `bytes` into a new CPU frame, provided they cover the layout.
    pub fn from_bytes(bytes: &[u8], interpretation: Interpretation) -> (r: Result<
        Frame<Interpretation, Vec<u8>>,
        FrameError,
    >)
        requires
            interpretation.size_fits(),
        ensures
            r is Ok <==> interpretation.required_len() <= bytes@.len(),
            r matches Ok(f) ==> f.storage@ == bytes@ && f.interp == interpretation,
            r matches Err(FrameError::InsufficientData { required, found }) ==> required
                == interpretation.required_len() && found == bytes@.len(),
    {
        let required = interpretation.required_bytes();
        if required > bytes.len() {
            return Err(FrameError::InsufficientData { required, found: bytes.len() });
        }
        Ok(Frame { storage: copy_bytes(bytes), interp: interpretation })
    }
}

impl<Interpretation> Frame<Interpretation, Vec<u8>> {
    /// The frame's bytes.
    pub fn as_bytes(&self) -> (r: &[u8])
        ensures
            r@ == self.storage@,
    {
        self.storage.as_slice()
    }
}

} // verus!
