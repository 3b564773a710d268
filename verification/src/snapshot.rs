//! The value type for one observed clipboard state: text, a raster image,
//! or nothing, together with its well-formedness invariants and the
//! validating constructor that turns a raw read into a snapshot.

use vstd::prelude::*;

verus! {

/// Mathematical model of a raster image: dimensions plus row-major RGBA
/// bytes, four per pixel.
pub ghost struct ImageModel {
    pub width: int,
    pub height: int,
    pub pixels: Seq<u8>,
}

impl ImageModel {
    /// The image invariant: dimensions fit the machine word they are carried
    /// in, and the pixel buffer holds exactly four bytes per declared pixel.
    pub open spec fn wf(self) -> bool {
        &&& 0 <= self.width <= u32::MAX
        &&& 0 <= self.height <= u32::MAX
        &&& self.pixels.len() == self.width * self.height * 4
    }
}

/// Mathematical model of one snapshot.
pub ghost enum Snapshot {
    Text(Seq<char>),
    Image(ImageModel),
    Empty,
}

/// A snapshot is well formed when text is never empty (empty text collapses
/// to `Empty` at construction) and an image satisfies its buffer invariant.
pub open spec fn snapshot_wf(s: Snapshot) -> bool {
    match s {
        Snapshot::Text(t) => t.len() > 0,
        Snapshot::Image(img) => img.wf(),
        Snapshot::Empty => true,
    }
}

/// A raster image as read from the clipboard: `width * height` pixels in
/// row-major RGBA order, four bytes per pixel.
#[derive(Debug)]
pub struct ImageData {
    pub width: u32,
    pub height: u32,
    pub pixels: Vec<u8>,
}

impl View for ImageData {
    type V = ImageModel;

    open spec fn view(&self) -> ImageModel {
        ImageModel { width: self.width as int, height: self.height as int, pixels: self.pixels@ }
    }
}

/// One observed clipboard state. Immutable once constructed; build it with
/// `ClipboardData::from_raw` so that the invariants hold.
#[derive(Debug)]
pub enum ClipboardData {
    Text(String),
    Image(ImageData),
    Empty,
}

impl View for ClipboardData {
    type V = Snapshot;

    open spec fn view(&self) -> Snapshot {
        match self {
            ClipboardData::Text(t) => Snapshot::Text(t@),
            ClipboardData::Image(img) => Snapshot::Image(img@),
            ClipboardData::Empty => Snapshot::Empty,
        }
    }
}

/// Model of a raw clipboard read, before validation.
pub ghost enum RawModel {
    Text(Seq<char>),
    Image { width: int, height: int, bytes: Seq<u8> },
    Empty,
}

/// What a raw clipboard read hands over, exactly as declared by the reader:
/// nothing about it has been checked yet.
#[derive(Debug)]
pub enum RawRead {
    Text(String),
    Image { width: u32, height: u32, bytes: Vec<u8> },
    Empty,
}

impl View for RawRead {
    type V = RawModel;

    open spec fn view(&self) -> RawModel {
        match self {
            RawRead::Text(t) => RawModel::Text(t@),
            RawRead::Image { width, height, bytes } => (RawModel::Image {
                width: *width as int,
                height: *height as int,
                bytes: bytes@,
            }),
            RawRead::Empty => RawModel::Empty,
        }
    }
}

/// Why a raw read was rejected at validation.
#[derive(Clone, Copy, Debug, PartialEq, Eq, Structural)]
pub enum SnapshotError {
    /// The byte buffer of a raw image does not match its declared dimensions.
    MalformedImage,
}

/// What `ClipboardData::from_raw` returns for each raw read: empty text
/// collapses to `Empty`, and an image whose buffer does not hold exactly
/// four bytes per declared pixel is rejected.
pub open spec fn from_raw_spec(r: RawModel) -> Result<Snapshot, SnapshotError> {
    match r {
        RawModel::Text(t) => if t.len() == 0 {
            Ok(Snapshot::Empty)
        } else {
            Ok(Snapshot::Text(t))
        },
        RawModel::Image { width, height, bytes } => if bytes.len() == width * height * 4 {
            Ok(Snapshot::Image(ImageModel { width, height, pixels: bytes }))
        } else {
            Err(SnapshotError::MalformedImage)
        },
        RawModel::Empty => Ok(Snapshot::Empty),
    }
}

/// Copies a byte vector; used by the hand-written `Clone` impls so that the
/// copy is known to hold the same bytes.
fn copy_bytes(src: &Vec<u8>) -> (out: Vec<u8>)
    ensures
        out@ == src@,
{
    let mut out: Vec<u8> = Vec::new();
    let mut i: usize = 0;
    while i < src.len()
        invariant
            i <= src.len(),
            out@ == src@.take(i as int),
        decreases src.len() - i,
    {
        out.push(src[i]);
        proof {
            assert(out@ =~= src@.take(i as int + 1));
        }
        i = i + 1;
    }
    proof {
        assert(src@.take(src@.len() as int) =~= src@);
    }
    out
}

impl Clone for ImageData {
    fn clone(&self) -> (res: Self)
        ensures
            res@ == self@,
    {
        ImageData { width: self.width, height: self.height, pixels: copy_bytes(&self.pixels) }
    }
}

impl Clone for ClipboardData {
    fn clone(&self) -> (res: Self)
        ensures
            res@ == self@,
    {
        match self {
            ClipboardData::Text(t) => ClipboardData::Text(t.clone()),
            ClipboardData::Image(img) => ClipboardData::Image(img.clone()),
            ClipboardData::Empty => ClipboardData::Empty,
        }
    }
}

impl ClipboardData {
    /// Validates a raw clipboard read. Empty text collapses to `Empty`; a
    /// raw image is accepted exactly when its buffer length matches its
    /// declared dimensions, and is otherwise reported as malformed.
    pub fn from_raw(raw: RawRead) -> (res: Result<ClipboardData, SnapshotError>)
        ensures
            match res {
                Ok(d) => from_raw_spec(raw@) == Ok::<Snapshot, SnapshotError>(d@) && snapshot_wf(
                    d@,
                ),
                Err(e) => from_raw_spec(raw@) == Err::<Snapshot, SnapshotError>(e),
            },
    {
        match raw {
            RawRead::Text(t) => {
                if t.as_str().is_empty() {
                    Ok(ClipboardData::Empty)
                } else {
                    Ok(ClipboardData::Text(t))
                }
            },
            RawRead::Image { width, height, bytes } => {
                proof {
                    let w = width as int;
                    let h = height as int;
                    assert(w * h <= 0xffff_ffff * 0xffff_ffff) by (nonlinear_arith)
                        requires
                            0 <= w <= 0xffff_ffff,
                            0 <= h <= 0xffff_ffff,
                    ;
                }
                let wh: u64 = (width as u64) * (height as u64);
                let need: u128 = (wh as u128) * 4;
                if (bytes.len() as u128) == need {
                    Ok(ClipboardData::Image(ImageData { width, height, pixels: bytes }))
                } else {
                    Err(SnapshotError::MalformedImage)
                }
            },
            RawRead::Empty => Ok(ClipboardData::Empty),
        }
    }

    /// True of a well-formed snapshot value; every snapshot built by
    /// `from_raw` satisfies it.
    pub open spec fn wf(&self) -> bool {
        snapshot_wf(self@)
    }
}

} // verus!
