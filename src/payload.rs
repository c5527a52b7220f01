use vstd::prelude::*;
use crate::frame::{copy_bytes, Frame, FrameError, FrameInterpretation, Raw, Rgb, Rgba};

verus! {

/// The layout tag a payload carries.
#[derive(Debug, Clone, Copy, PartialEq, Eq, Structural)]
pub enum Interpretation {
    Raw(Raw),
    Rgb(Rgb),
    Rgba(Rgba),
}

/// The kind of a layout, without its dimensions.
#[derive(Debug, Clone, Copy, PartialEq, Eq, Structural)]
pub enum InterpretationKind {
    Raw,
    Rgb,
    Rgba,
}

impl Interpretation {
    pub open spec fn spec_kind(&self) -> InterpretationKind {
        match self {
            Interpretation::Raw(_) => InterpretationKind::Raw,
            Interpretation::Rgb(_) => InterpretationKind::Rgb,
            Interpretation::Rgba(_) => InterpretationKind::Rgba,
        }
    }

    pub fn kind(&self) -> (r: InterpretationKind)
        ensures
            r == self.spec_kind(),
    {
        match self {
            Interpretation::Raw(_) => InterpretationKind::Raw,
            Interpretation::Rgb(_) => InterpretationKind::Rgb,
            Interpretation::Rgba(_) => InterpretationKind::Rgba,
        }
    }
}

impl FrameInterpretation for Interpretation {
    open spec fn required_len(&self) -> nat {
        match self {
            Interpretation::Raw(i) => i.required_len(),
            Interpretation::Rgb(i) => i.required_len(),
            Interpretation::Rgba(i) => i.required_len(),
        }
    }

    open spec fn size_fits(&self) -> bool {
        match self {
            Interpretation::Raw(i) => i.size_fits(),
            Interpretation::Rgb(i) => i.size_fits(),
            Interpretation::Rgba(i) => i.size_fits(),
        }
    }

    fn required_bytes(&self) -> (r: usize) {
        match self {
            Interpretation::Raw(i) => i.required_bytes(),
            Interpretation::Rgb(i) => i.required_bytes(),
            Interpretation::Rgba(i) => i.required_bytes(),
        }
    }
}

/// A buffer that lives in GPU memory, known to the library by its handle and
/// length; the graphics context owns the memory itself.
#[derive(Debug, Clone, Copy, PartialEq, Eq, Structural)]
pub struct GpuBuffer {
    pub handle: u64,
    pub len: usize,
}

/// Where the bytes of a payload live.
pub enum Storage {
    Cpu(Vec<u8>),
    Gpu(GpuBuffer),
}

/// What flows between stages: nothing, or one frame tagged with its layout.
pub enum Payload {
    Empty,
    Frame { interp: Interpretation, storage: Storage },
}

/// Why a payload could not be used as asked.
#[derive(Debug, Clone, Copy, PartialEq, Eq, Structural)]
pub enum PayloadError {
    /// The payload is empty or carries another layout than the one asked for.
    WrongFormat,
    /// The payload carries the layout asked for, but its bytes are on the GPU.
    NotOnCpu,
    /// A buffer is shorter than its layout requires.
    InsufficientData { required: usize, found: usize },
    /// Moving the bytes between CPU and GPU failed.
    Transfer,
}

impl Payload {
    /// The layout and bytes of a CPU-resident payload.
    pub open spec fn cpu_contents(&self) -> Option<(Interpretation, Seq<u8>)> {
        match self {
            Payload::Frame { interp, storage: Storage::Cpu(b) } => Some((*interp, b@)),
            _ => None,
        }
    }

    /// The outcome of asking this payload for a CPU frame of kind `k`.
    pub open spec fn downcast_spec(&self, k: InterpretationKind) -> Result<
        (Interpretation, Seq<u8>),
        PayloadError,
    > {
        match self {
            Payload::Empty => Err(PayloadError::WrongFormat),
            Payload::Frame { interp, storage } => if interp.spec_kind() != k {
                Err(PayloadError::WrongFormat)
            } else {
                match storage {
                    Storage::Cpu(b) => Ok((*interp, b@)),
                    Storage::Gpu(_) => Err(PayloadError::NotOnCpu),
                }
            },
        }
    }

    pub open spec fn spec_is_empty(&self) -> bool {
        self is Empty
    }

    /// The explicit "no frame" value.
    pub fn empty() -> (r: Payload)
        ensures
            r.spec_is_empty(),
    {
        Payload::Empty
    }

    pub fn is_empty(&self) -> (r: bool)
        ensures
            r == self.spec_is_empty(),
    {
        matches!(self, Payload::Empty)
    }

    /// A CPU payload holding a copy of `bytes`, provided they cover the layout.
    pub fn from_bytes(bytes: &[u8], interp: Interpretation) -> (r: Result<Payload, PayloadError>)
        requires
            interp.size_fits(),
        ensures
            r is Ok <==> interp.required_len() <= bytes@.len(),
            r matches Ok(p) ==> p.cpu_contents() == Some((interp, bytes@)),
            r matches Err(e) ==> e == (PayloadError::InsufficientData {
                required: interp.required_len() as usize,
                found: bytes@.len() as usize,
            }),
    {
        match Frame::from_bytes(bytes, interp) {
            Ok(f) => Ok(Payload::Frame { interp: f.interp, storage: Storage::Cpu(f.storage) }),
            Err(FrameError::InsufficientData { required, found }) => Err(
                PayloadError::InsufficientData { required, found },
            ),
        }
    }

    /// A payload whose bytes stay on the GPU.
    pub fn from_gpu(buffer: GpuBuffer, interp: Interpretation) -> (r: Payload)
        ensures
            r == (Payload::Frame { interp, storage: Storage::Gpu(buffer) }),
    {
        Payload::Frame { interp, storage: Storage::Gpu(buffer) }
    }

    /// The layout tag, if the payload carries a frame.
    pub fn interpretation(&self) -> (r: Option<Interpretation>)
        ensures
            r == (match self {
                Payload::Empty => None,
                Payload::Frame { interp, .. } => Some(*interp),
            }),
    {
        match self {
            Payload::Empty => None,
            Payload::Frame { interp, .. } => Some(*interp),
        }
    }

    /// This payload with its bytes in CPU memory. A CPU payload is copied; for
    /// a GPU payload `download` is what reading the GPU buffer gave, `None`
    /// where the transfer failed, and it must hold the buffer's length.
    pub fn materialize_on_cpu(&self, download: Option<Vec<u8>>) -> (r: Result<Payload, PayloadError>)
        ensures
            match self {
                Payload::Empty => r matches Ok(Payload::Empty),
                Payload::Frame { interp, storage: Storage::Cpu(b) } => r matches Ok(p)
                    && p.cpu_contents() == Some((*interp, b@)),
                Payload::Frame { interp, storage: Storage::Gpu(g) } => match download {
                    Some(d) => if d@.len() == g.len {
                        r matches Ok(p) && p.cpu_contents() == Some((*interp, d@))
                    } else {
                        r == Err::<Payload, PayloadError>(PayloadError::Transfer)
                    },
                    None => r == Err::<Payload, PayloadError>(PayloadError::Transfer),
                },
            },
    {
        match self {
            Payload::Empty => Ok(Payload::Empty),
            Payload::Frame { interp, storage: Storage::Cpu(b) } => Ok(
                Payload::Frame { interp: *interp, storage: Storage::Cpu(copy_bytes(b.as_slice())) },
            ),
            Payload::Frame { interp, storage: Storage::Gpu(g) } => match download {
                Some(d) => if d.len() == g.len {
                    Ok(Payload::Frame { interp: *interp, storage: Storage::Cpu(d) })
                } else {
                    Err(PayloadError::Transfer)
                },
                None => Err(PayloadError::Transfer),
            },
        }
    }

    /// This payload with its bytes in GPU memory. A GPU payload keeps its
    /// buffer; for a CPU payload `upload` is the buffer the bytes were copied
    /// into, `None` where the transfer failed, and it must hold their length.
    pub fn materialize_on_gpu(&self, upload: Option<GpuBuffer>) -> (r: Result<Payload, PayloadError>)
        ensures
            match self {
                Payload::Empty => r matches Ok(Payload::Empty),
                Payload::Frame { interp, storage: Storage::Gpu(g) } => r == Ok::<Payload, PayloadError>(
                    Payload::Frame { interp: *interp, storage: Storage::Gpu(*g) },
                ),
                Payload::Frame { interp, storage: Storage::Cpu(b) } => match upload {
                    Some(u) => if u.len == b@.len() {
                        r == Ok::<Payload, PayloadError>(
                            Payload::Frame { interp: *interp, storage: Storage::Gpu(u) },
                        )
                    } else {
                        r == Err::<Payload, PayloadError>(PayloadError::Transfer)
                    },
                    None => r == Err::<Payload, PayloadError>(PayloadError::Transfer),
                },
            },
    {
        match self {
            Payload::Empty => Ok(Payload::Empty),
            Payload::Frame { interp, storage: Storage::Gpu(g) } => Ok(
                Payload::Frame { interp: *interp, storage: Storage::Gpu(*g) },
            ),
            Payload::Frame { interp, storage: Storage::Cpu(b) } => match upload {
                Some(u) => if u.len == b.len() {
                    Ok(Payload::Frame { interp: *interp, storage: Storage::Gpu(u) })
                } else {
                    Err(PayloadError::Transfer)
                },
                None => Err(PayloadError::Transfer),
            },
        }
    }

    /// Checks the tag against `k` and copies out layout and bytes.
    fn downcast_cpu(&self, k: InterpretationKind) -> (r: Result<
        (Interpretation, Vec<u8>),
        PayloadError,
    >)
        ensures
            match r {
                Ok((i, b)) => self.downcast_spec(k) == Ok::<
                    (Interpretation, Seq<u8>),
                    PayloadError,
                >((i, b@)),
                Err(e) => self.downcast_spec(k) == Err::<(Interpretation, Seq<u8>), PayloadError>(e),
            },
    {
        match self {
            Payload::Empty => Err(PayloadError::WrongFormat),
            Payload::Frame { interp, storage } => {
                if interp.kind() != k {
                    Err(PayloadError::WrongFormat)
                } else {
                    match storage {
                        Storage::Cpu(b) => Ok((*interp, copy_bytes(b.as_slice()))),
                        Storage::Gpu(_) => Err(PayloadError::NotOnCpu),
                    }
                }
            },
        }
    }

    /// A private copy of this payload as a raw CPU frame.
    pub fn downcast_raw(&self) -> (r: Result<Frame<Raw, Vec<u8>>, PayloadError>)
        ensures
            match r {
                Ok(f) => self.downcast_spec(InterpretationKind::Raw) == Ok::<
                    (Interpretation, Seq<u8>),
                    PayloadError,
                >((Interpretation::Raw(f.interp), f.storage@)),
                Err(e) => self.downcast_spec(InterpretationKind::Raw) == Err::<
                    (Interpretation, Seq<u8>),
                    PayloadError,
                >(e),
            },
    {
        match self.downcast_cpu(InterpretationKind::Raw) {
            Ok((Interpretation::Raw(i), b)) => Ok(Frame { interp: i, storage: b }),
            Ok(_) => Err(PayloadError::WrongFormat),
            Err(e) => Err(e),
        }
    }

    /// A private copy of this payload as an RGB CPU frame.
    pub fn downcast_rgb(&self) -> (r: Result<Frame<Rgb, Vec<u8>>, PayloadError>)
        ensures
            match r {
                Ok(f) => self.downcast_spec(InterpretationKind::Rgb) == Ok::<
                    (Interpretation, Seq<u8>),
                    PayloadError,
                >((Interpretation::Rgb(f.interp), f.storage@)),
                Err(e) => self.downcast_spec(InterpretationKind::Rgb) == Err::<
                    (Interpretation, Seq<u8>),
                    PayloadError,
                >(e),
            },
    {
        match self.downcast_cpu(InterpretationKind::Rgb) {
            Ok((Interpretation::Rgb(i), b)) => Ok(Frame { interp: i, storage: b }),
            Ok(_) => Err(PayloadError::WrongFormat),
            Err(e) => Err(e),
        }
    }

    /// A private copy of this payload as an RGBA CPU frame.
    pub fn downcast_rgba(&self) -> (r: Result<Frame<Rgba, Vec<u8>>, PayloadError>)
        ensures
            match r {
                Ok(f) => self.downcast_spec(InterpretationKind::Rgba) == Ok::<
                    (Interpretation, Seq<u8>),
                    PayloadError,
                >((Interpretation::Rgba(f.interp), f.storage@)),
                Err(e) => self.downcast_spec(InterpretationKind::Rgba) == Err::<
                    (Interpretation, Seq<u8>),
                    PayloadError,
                >(e),
            },
    {
        match self.downcast_cpu(InterpretationKind::Rgba) {
            Ok((Interpretation::Rgba(i), b)) => Ok(Frame { interp: i, storage: b }),
            Ok(_) => Err(PayloadError::WrongFormat),
            Err(e) => Err(e),
        }
    }
}

/// A payload built from bytes with layout `interp` hands back exactly those
/// bytes and that layout when asked for the layout's own kind, and fails with
/// `WrongFormat` when asked for any other kind.
pub proof fn lemma_downcast_round_trip(
    p: Payload,
    interp: Interpretation,
    bytes: Seq<u8>,
    k: InterpretationKind,
)
    requires
        p.cpu_contents() == Some((interp, bytes)),
    ensures
        k == interp.spec_kind() ==> p.downcast_spec(k) == Ok::<
            (Interpretation, Seq<u8>),
            PayloadError,
        >((interp, bytes)),
        k != interp.spec_kind() ==> p.downcast_spec(k) == Err::<
            (Interpretation, Seq<u8>),
            PayloadError,
        >(PayloadError::WrongFormat),
{
}

} // verus!
