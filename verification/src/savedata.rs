//! Save-data descriptors.
//!
//! The save and load dialogs run on the platform outside this library;
//! the builder lays the game code, title and detail text into the
//! fixed-size buffers the platform expects.

use vstd::prelude::*;
use vstd::string::StringSliceAdditionalSpecFns;

verus! {

/// Error from a save-data operation, wrapping the raw device code.
#[derive(Debug, Clone, Copy, PartialEq, Eq, Structural)]
pub struct SavedataError(pub i32);

/// A fixed-size text buffer: at most `cap - 1` bytes of `s`, zero-filled
/// to exactly `cap` bytes.
pub open spec fn spec_padded(s: Seq<u8>, cap: int) -> Seq<u8> {
    Seq::new(cap as nat, |i: int| if i < s.len() && i < cap - 1 { s[i] } else { 0u8 })
}

/// Copy `s` into a fresh zero-filled buffer of `cap` bytes, truncating at
/// `cap - 1`.
fn pad_into(s: &[u8], cap: usize) -> (r: Vec<u8>)
    requires
        cap >= 1,
    ensures
        r@ == spec_padded(s@, cap as int),
{
    let len: usize = if s.len() < cap - 1 {
        s.len()
    } else {
        cap - 1
    };
    let mut buf: Vec<u8> = Vec::new();
    let mut i: usize = 0;
    while i < len
        invariant
            i <= len,
            len <= cap - 1,
            len <= s@.len(),
            buf@.len() == i,
            forall|j: int| 0 <= j < i ==> buf@[j] == s@[j],
        decreases len - i,
    {
        buf.push(s[i]);
        i = i + 1;
    }
    while i < cap
        invariant
            len <= i <= cap,
            len <= cap - 1,
            len <= s@.len(),
            buf@.len() == i,
            forall|j: int| 0 <= j < len ==> buf@[j] == s@[j],
            forall|j: int| len <= j < i ==> buf@[j] == 0u8,
        decreases cap - i,
    {
        buf.push(0);
        i = i + 1;
    }
    proof {
        assert(buf@ =~= spec_padded(s@, cap as int));
    }
    buf
}

/// Builder for save-data operations: the 13-byte game code and the title
/// and detail text shown in the save dialog.
pub struct Savedata {
    /// The game's product code, 13 bytes.
    pub game_name: Vec<u8>,
    /// Save title, 128 bytes zero-padded.
    pub title: Vec<u8>,
    /// Save detail text, 1024 bytes zero-padded.
    pub detail: Vec<u8>,
}

impl Savedata {
    /// A save-data builder for the given 13-byte game code, with empty
    /// title and detail.
    pub fn new(game_name: &[u8]) -> (r: Self)
        requires
            game_name@.len() == 13,
        ensures
            r.game_name@ == game_name@,
            r.title@.len() == 128,
            forall|j: int| 0 <= j < 128 ==> r.title@[j] == 0u8,
            r.detail@.len() == 1024,
            forall|j: int| 0 <= j < 1024 ==> r.detail@[j] == 0u8,
    {
        let mut name: Vec<u8> = Vec::new();
        let mut i: usize = 0;
        while i < game_name.len()
            invariant
                i <= game_name@.len(),
                name@ == game_name@.subrange(0, i as int),
            decreases game_name@.len() - i,
        {
            name.push(game_name[i]);
            i = i + 1;
        }
        proof {
            assert(name@ == game_name@);
        }
        let empty: Vec<u8> = Vec::new();
        let title = pad_into(empty.as_slice(), 128);
        let detail = pad_into(empty.as_slice(), 1024);
        Savedata { game_name: name, title, detail }
    }

    /// Set the save title shown in the dialog (truncated to 127 bytes).
    pub fn title(self, title: &str) -> (r: Self)
        ensures
            r.title@ == spec_padded(title.spec_bytes(), 128),
            r.game_name@ == self.game_name@,
            r.detail@ == self.detail@,
    {
        let buf = pad_into(title.as_bytes(), 128);
        Savedata { title: buf, ..self }
    }

    /// Set the save detail text shown in the dialog (truncated to 1023
    /// bytes).
    pub fn detail(self, detail: &str) -> (r: Self)
        ensures
            r.detail@ == spec_padded(detail.spec_bytes(), 1024),
            r.game_name@ == self.game_name@,
            r.title@ == self.title@,
    {
        let buf = pad_into(detail.as_bytes(), 1024);
        Savedata { detail: buf, ..self }
    }
}

} // verus!
