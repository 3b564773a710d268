//! The identity hash: a cheap, deterministic fingerprint of a snapshot used
//! to decide whether two observed clipboard states differ. Text hashes its
//! whole character sequence; an image hashes only its dimensions and the
//! first pixel's channels, a deliberate O(1) approximation that may miss
//! changes confined to the image interior.

use vstd::prelude::*;
use vstd::string::StrSliceExecFns;
use crate::snapshot::{ClipboardData, Snapshot};

verus! {

/// Offset basis of the 64-bit FNV-1a hash.
pub const FNV_OFFSET_BASIS: u64 = 0xcbf2_9ce4_8422_2325;

/// Prime of the 64-bit FNV-1a hash.
pub const FNV_PRIME: u64 = 0x0000_0100_0000_01b3;

/// Domain separation tag fed to the hash ahead of each kind of snapshot.
pub const TAG_EMPTY: u64 = 0;

/// Domain separation tag for text snapshots.
pub const TAG_TEXT: u64 = 1;

/// Domain separation tag for image snapshots.
pub const TAG_IMAGE: u64 = 2;

/// One FNV-1a step: fold a value into the accumulator.
pub open spec fn absorb(acc: u64, v: u64) -> u64 {
    (acc ^ v).wrapping_mul(FNV_PRIME)
}

/// Folds the characters of `s` from position `i` onward into `acc`.
pub open spec fn fold_chars(s: Seq<char>, i: int, acc: u64) -> u64
    decreases s.len() - i,
{
    if i < 0 || i >= s.len() {
        acc
    } else {
        fold_chars(s, i + 1, absorb(acc, (s[i] as u32) as u64))
    }
}

/// Identity of a text snapshot: the hash of its whole character sequence.
pub open spec fn text_identity(t: Seq<char>) -> u64 {
    fold_chars(t, 0, absorb(FNV_OFFSET_BASIS, TAG_TEXT))
}

/// Identity of an image snapshot: the hash of its dimensions and, when
/// present, the four channel bytes of its first pixel — never of the whole
/// buffer, so detection cost does not grow with the image.
pub open spec fn image_identity(width: int, height: int, pixels: Seq<u8>) -> u64 {
    let dims = absorb(absorb(absorb(FNV_OFFSET_BASIS, TAG_IMAGE), width as u64), height as u64);
    if pixels.len() >= 4 {
        absorb(absorb(absorb(absorb(dims, pixels[0] as u64), pixels[1] as u64), pixels[2] as u64), pixels[3] as u64)
    } else {
        dims
    }
}

/// Identity of the empty snapshot: a fixed sentinel.
pub open spec fn empty_identity() -> u64 {
    absorb(FNV_OFFSET_BASIS, TAG_EMPTY)
}

/// The identity of a snapshot. Equal snapshots always produce equal
/// identities; distinct snapshots may collide, which only costs a missed
/// change report.
pub open spec fn identity_of(s: Snapshot) -> u64 {
    match s {
        Snapshot::Text(t) => text_identity(t),
        Snapshot::Image(img) => image_identity(img.width, img.height, img.pixels),
        Snapshot::Empty => empty_identity(),
    }
}

/// A snapshot's identity as a value: what the change detector stores and
/// compares.
#[derive(Clone, Copy, Debug, PartialEq, Eq, Structural)]
pub struct ContentIdentity {
    pub value: u64,
}

fn absorb_exec(acc: u64, v: u64) -> (r: u64)
    ensures
        r == absorb(acc, v),
{
    (acc ^ v).wrapping_mul(FNV_PRIME)
}

/// Hashes a character sequence for the text identity and the content-hash
/// file names derived from text.
pub(crate) fn hash_str(s: &str) -> (r: u64)
    ensures
        r == text_identity(s@),
{
    let n = s.unicode_len();
    let mut acc = absorb_exec(FNV_OFFSET_BASIS, TAG_TEXT);
    let mut i: usize = 0;
    while i < n
        invariant
            n == s@.len(),
            i <= n,
            fold_chars(s@, i as int, acc) == text_identity(s@),
        decreases n - i,
    {
        let c = s.get_char(i);
        acc = absorb_exec(acc, (c as u32) as u64);
        i = i + 1;
    }
    acc
}

impl ContentIdentity {
    /// Computes the identity of a snapshot.
    pub fn of(d: &ClipboardData) -> (r: ContentIdentity)
        ensures
            r.value == identity_of(d@),
    {
        match d {
            ClipboardData::Text(t) => ContentIdentity { value: hash_str(t.as_str()) },
            ClipboardData::Image(img) => {
                let dims = absorb_exec(
                    absorb_exec(absorb_exec(FNV_OFFSET_BASIS, TAG_IMAGE), img.width as u64),
                    img.height as u64,
                );
                let value = if img.pixels.len() >= 4 {
                    absorb_exec(
                        absorb_exec(
                            absorb_exec(absorb_exec(dims, img.pixels[0] as u64), img.pixels[1] as u64),
                            img.pixels[2] as u64,
                        ),
                        img.pixels[3] as u64,
                    )
                } else {
                    dims
                };
                ContentIdentity { value }
            },
            ClipboardData::Empty => ContentIdentity { value: absorb_exec(FNV_OFFSET_BASIS, TAG_EMPTY) },
        }
    }
}

} // verus!
