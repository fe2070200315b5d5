//! Asset lists that a script can lock: once locked, only the members it
//! names stay reachable. Members are sprites, audio clips or fonts, with
//! the defaults of this edition of the API (a new audio clip is paused and
//! silent).
//!
//! As in `crate::asset`, time and volume fields hold the bit patterns of
//! the floating point numbers the renderer and the scripts use.

use vstd::prelude::*;

use crate::asset::{first_with_id, Asset, PlaybackError, ZERO_F64_BITS};

verus! {

/// The bit pattern of the `f32` number `1.0`.
pub const ONE_F32_BITS: u32 = 0x3F80_0000u32;

/// The bit pattern of the `f32` number `0.0`.
pub const ZERO_F32_BITS: u32 = 0u32;

/// A sprite's properties for a specific object.
pub struct Sprite {
    pub id: u32,
    pub cur_animation: String,
    pub cur_frame: u32,
    pub is_animation_finished: bool,
    /// Milliseconds into the current animation, as `f64` bits.
    pub animation_time: u64,
    pub repeat: bool,
}

impl Clone for Sprite {
    fn clone(&self) -> (r: Self)
        ensures
            r.id == self.id,
            r.cur_animation@ == self.cur_animation@,
            r.cur_frame == self.cur_frame,
            r.is_animation_finished == self.is_animation_finished,
            r.animation_time == self.animation_time,
            r.repeat == self.repeat,
    {
        Sprite {
            id: self.id,
            cur_animation: self.cur_animation.clone(),
            cur_frame: self.cur_frame,
            is_animation_finished: self.is_animation_finished,
            animation_time: self.animation_time,
            repeat: self.repeat,
        }
    }
}

impl Sprite {
    /// A sprite of the asset `new_id` with no animation playing.
    pub fn new(new_id: u32) -> (r: Self)
        ensures
            r.id == new_id,
            r.cur_animation@ == Seq::<char>::empty(),
            r.cur_frame == 0,
            r.is_animation_finished,
            r.animation_time == ZERO_F64_BITS,
            !r.repeat,
    {
        Sprite {
            id: new_id,
            cur_animation: String::new(),
            cur_frame: 0,
            is_animation_finished: true,
            animation_time: ZERO_F64_BITS,
            repeat: false,
        }
    }

    /// Reuses the sprite for the asset `new_id`, with no animation playing.
    pub fn recycle(&mut self, new_id: u32)
        ensures
            final(self).id == new_id,
            final(self).cur_animation@ == Seq::<char>::empty(),
            final(self).cur_frame == 0,
            final(self).is_animation_finished,
            final(self).animation_time == ZERO_F64_BITS,
            !final(self).repeat,
    {
        self.id = new_id;
        self.cur_animation = String::new();
        self.cur_frame = 0;
        self.is_animation_finished = true;
        self.animation_time = ZERO_F64_BITS;
        self.repeat = false;
    }

    pub fn get_id(&mut self) -> (r: i64)
        ensures
            r == old(self).id as i64,
            *final(self) == *old(self),
    {
        self.id as i64
    }

    pub fn get_cur_animation(&mut self) -> (r: String)
        ensures
            r@ == old(self).cur_animation@,
            *final(self) == *old(self),
    {
        self.cur_animation.clone()
    }

    pub fn get_cur_frame(&mut self) -> (r: i64)
        ensures
            r == old(self).cur_frame as i64,
            *final(self) == *old(self),
    {
        self.cur_frame as i64
    }

    pub fn get_is_animation_finished(&mut self) -> (r: bool)
        ensures
            r == old(self).is_animation_finished,
            *final(self) == *old(self),
    {
        self.is_animation_finished
    }

    pub fn get_repeat(&mut self) -> (r: bool)
        ensures
            r == old(self).repeat,
            *final(self) == *old(self),
    {
        self.repeat
    }

    /// Sets the sprite up to play the animation `name` from its start.
    pub fn play_animation(&mut self, name: &str)
        ensures
            final(self).cur_animation@ == name@,
            final(self).cur_frame == 0,
            final(self).animation_time == ZERO_F64_BITS,
            !final(self).repeat,
            !final(self).is_animation_finished,
            final(self).id == old(self).id,
    {
        self.cur_animation = String::from_str(name);
        self.cur_frame = 0;
        self.animation_time = ZERO_F64_BITS;
        self.repeat = false;
        self.is_animation_finished = false;
    }

    /// Sets the sprite up to play the animation `name` from the time
    /// `time_bits` (milliseconds, as `f64` bits).
    pub fn play_animation_on_time(&mut self, name: &str, time_bits: u64)
        ensures
            final(self).cur_animation@ == name@,
            final(self).cur_frame == 0,
            final(self).animation_time == time_bits,
            !final(self).repeat,
            !final(self).is_animation_finished,
            final(self).id == old(self).id,
    {
        self.cur_animation = String::from_str(name);
        self.cur_frame = 0;
        self.animation_time = time_bits;
        self.repeat = false;
        self.is_animation_finished = false;
    }

    pub fn set_repeat(&mut self, value: bool)
        ensures
            *final(self) == (Sprite { repeat: value, ..*old(self) }),
    {
        self.repeat = value;
    }

    /// Sets the current animation; refused while an animation is playing.
    pub fn set_cur_animation(&mut self, value: &str) -> (r: Result<(), PlaybackError>)
        ensures
            r is Err <==> !old(self).is_animation_finished,
            r is Err ==> r == Err::<(), PlaybackError>(PlaybackError::AnimationWhilePlaying)
                && *final(self) == *old(self),
            r is Ok ==> final(self).cur_animation@ == value@ && final(self).id == old(self).id
                && final(self).cur_frame == old(self).cur_frame
                && final(self).is_animation_finished == old(self).is_animation_finished
                && final(self).animation_time == old(self).animation_time
                && final(self).repeat == old(self).repeat,
    {
        if !self.is_animation_finished {
            return Err(PlaybackError::AnimationWhilePlaying);
        }
        self.cur_animation = String::from_str(value);
        Ok(())
    }

    /// Sets the current frame (truncated to 32 bits); refused while an
    /// animation is playing.
    pub fn set_cur_frame(&mut self, value: i64) -> (r: Result<(), PlaybackError>)
        ensures
            r is Err <==> !old(self).is_animation_finished,
            r is Err ==> r == Err::<(), PlaybackError>(PlaybackError::FrameWhilePlaying)
                && *final(self) == *old(self),
            r is Ok ==> *final(self) == (Sprite { cur_frame: value as u32, ..*old(self) }),
    {
        if !self.is_animation_finished {
            return Err(PlaybackError::FrameWhilePlaying);
        }
        self.cur_frame = value as u32;
        Ok(())
    }
}

impl Asset for Sprite {
    open spec fn asset_id(&self) -> u32 {
        self.id
    }

    open spec fn is_fresh(&self) -> bool {
        &&& self.cur_animation@ == Seq::<char>::empty()
        &&& self.cur_frame == 0
        &&& self.is_animation_finished
        &&& self.animation_time == ZERO_F64_BITS
        &&& !self.repeat
    }

    fn get_id(&self) -> (r: u32) {
        self.id
    }

    fn recycle(&mut self, new_id: u32) {
        Sprite::recycle(self, new_id);
    }

    fn new(new_id: u32) -> (r: Self) {
        Sprite::new(new_id)
    }
}

/// An audio clip's properties for a specific object.
pub struct Audio {
    pub id: u32,
    pub tag: String,
    /// The playing position, as `f64` bits.
    pub audio_time: u64,
    pub paused: bool,
    pub repeat: bool,
    /// Where a repetition starts, as `f64` bits.
    pub repeat_start_time: u64,
    /// The volume, as `f32` bits.
    pub volume: u32,
}

impl Clone for Audio {
    fn clone(&self) -> (r: Self)
        ensures
            r.id == self.id,
            r.tag@ == self.tag@,
            r.audio_time == self.audio_time,
            r.paused == self.paused,
            r.repeat == self.repeat,
            r.repeat_start_time == self.repeat_start_time,
            r.volume == self.volume,
    {
        Audio {
            id: self.id,
            tag: self.tag.clone(),
            audio_time: self.audio_time,
            paused: self.paused,
            repeat: self.repeat,
            repeat_start_time: self.repeat_start_time,
            volume: self.volume,
        }
    }
}

/// Whether an audio clip is in the state a new one starts in: untagged,
/// paused, silent, at the start and not repeating.
pub open spec fn audio_is_fresh(a: Audio) -> bool {
    &&& a.tag@ == Seq::<char>::empty()
    &&& a.audio_time == ZERO_F64_BITS
    &&& a.paused
    &&& !a.repeat
    &&& a.volume == ZERO_F32_BITS
    &&& a.repeat_start_time == ZERO_F64_BITS
}

impl Audio {
    /// A paused, silent clip of the asset `new_id`.
    pub fn new(new_id: u32) -> (r: Self)
        ensures
            r.id == new_id,
            audio_is_fresh(r),
    {
        Audio {
            id: new_id,
            tag: String::new(),
            audio_time: ZERO_F64_BITS,
            paused: true,
            repeat: false,
            volume: ZERO_F32_BITS,
            repeat_start_time: ZERO_F64_BITS,
        }
    }

    /// Reuses the clip for the asset `new_id`, paused and silent.
    pub fn recycle(&mut self, new_id: u32)
        ensures
            final(self).id == new_id,
            audio_is_fresh(*final(self)),
    {
        self.id = new_id;
        self.tag = String::new();
        self.audio_time = ZERO_F64_BITS;
        self.paused = true;
        self.repeat = false;
        self.volume = ZERO_F32_BITS;
        self.repeat_start_time = ZERO_F64_BITS;
    }

    pub fn get_id(&mut self) -> (r: i64)
        ensures
            r == old(self).id as i64,
            *final(self) == *old(self),
    {
        self.id as i64
    }

    pub fn get_paused(&mut self) -> (r: bool)
        ensures
            r == old(self).paused,
            *final(self) == *old(self),
    {
        self.paused
    }

    pub fn get_repeat(&mut self) -> (r: bool)
        ensures
            r == old(self).repeat,
            *final(self) == *old(self),
    {
        self.repeat
    }

    /// Plays the clip from its start at full volume, untagged and not
    /// repeating.
    pub fn play(&mut self)
        ensures
            final(self).id == old(self).id,
            final(self).tag@ == Seq::<char>::empty(),
            final(self).audio_time == ZERO_F64_BITS,
            !final(self).repeat,
            final(self).volume == ONE_F32_BITS,
            !final(self).paused,
            final(self).repeat_start_time == old(self).repeat_start_time,
    {
        self.tag = String::new();
        self.audio_time = ZERO_F64_BITS;
        self.repeat = false;
        self.volume = ONE_F32_BITS;
        self.paused = false;
    }

    /// Plays the clip from its start at full volume with the tag `tag`,
    /// not repeating.
    pub fn play_with_tag(&mut self, tag: &str)
        ensures
            final(self).id == old(self).id,
            final(self).tag@ == tag@,
            final(self).audio_time == ZERO_F64_BITS,
            !final(self).repeat,
            final(self).volume == ONE_F32_BITS,
            !final(self).paused,
            final(self).repeat_start_time == old(self).repeat_start_time,
    {
        self.tag = String::from_str(tag);
        self.audio_time = ZERO_F64_BITS;
        self.repeat = false;
        self.volume = ONE_F32_BITS;
        self.paused = false;
    }

    pub fn set_volume_bits(&mut self, value: u32)
        ensures
            *final(self) == (Audio { volume: value, ..*old(self) }),
    {
        self.volume = value;
    }

    pub fn set_repeat_start_time_bits(&mut self, value: u64)
        ensures
            *final(self) == (Audio { repeat_start_time: value, ..*old(self) }),
    {
        self.repeat_start_time = value;
    }

    pub fn set_repeat(&mut self, value: bool)
        ensures
            *final(self) == (Audio { repeat: value, ..*old(self) }),
    {
        self.repeat = value;
    }

    pub fn set_paused(&mut self, value: bool)
        ensures
            *final(self) == (Audio { paused: value, ..*old(self) }),
    {
        self.paused = value;
    }
}

impl Asset for Audio {
    open spec fn asset_id(&self) -> u32 {
        self.id
    }

    open spec fn is_fresh(&self) -> bool {
        audio_is_fresh(*self)
    }

    fn get_id(&self) -> (r: u32) {
        self.id
    }

    fn recycle(&mut self, new_id: u32) {
        Audio::recycle(self, new_id);
    }

    fn new(new_id: u32) -> (r: Self) {
        Audio::new(new_id)
    }
}

/// A font's properties for a specific object.
pub struct Font {
    pub id: u32,
    pub text: String,
}

impl Clone for Font {
    fn clone(&self) -> (r: Self)
        ensures
            r.id == self.id,
            r.text@ == self.text@,
    {
        Font { id: self.id, text: self.text.clone() }
    }
}

impl Font {
    /// A font of the asset `new_id` with no text.
    pub fn new(new_id: u32) -> (r: Self)
        ensures
            r.id == new_id,
            r.text@ == Seq::<char>::empty(),
    {
        Font { id: new_id, text: String::new() }
    }

    /// Reuses the font for the asset `new_id`, with no text.
    pub fn recycle(&mut self, new_id: u32)
        ensures
            final(self).id == new_id,
            final(self).text@ == Seq::<char>::empty(),
    {
        self.id = new_id;
        self.text = String::new();
    }

    pub fn get_id(&mut self) -> (r: i64)
        ensures
            r == old(self).id as i64,
            *final(self) == *old(self),
    {
        self.id as i64
    }

    pub fn get_text(&mut self) -> (r: String)
        ensures
            r@ == old(self).text@,
            final(self).id == old(self).id,
            final(self).text@ == old(self).text@,
    {
        self.text.clone()
    }

    pub fn set_text(&mut self, value: &str)
        ensures
            final(self).text@ == value@,
            final(self).id == old(self).id,
    {
        self.text = String::from_str(value);
    }
}

impl Asset for Font {
    open spec fn asset_id(&self) -> u32 {
        self.id
    }

    open spec fn is_fresh(&self) -> bool {
        self.text@ == Seq::<char>::empty()
    }

    fn get_id(&self) -> (r: u32) {
        self.id
    }

    fn recycle(&mut self, new_id: u32) {
        Font::recycle(self, new_id);
    }

    fn new(new_id: u32) -> (r: Self) {
        Font::new(new_id)
    }
}

/// Why a lockable asset list refused an operation.
#[derive(Clone, Copy, Debug, PartialEq, Eq)]
pub enum LockError {
    /// The list was locked already.
    AlreadyLocked,
    /// An index given to `lock_with_indcies` was not an integer.
    NotAnIndex,
    /// `get_asset` asked for a member the lock hides.
    LockedGet,
    /// `set_asset` asked for a member the lock hides.
    LockedSet,
}

impl LockError {
    /// The message the script sees.
    pub fn message(&self) -> (r: &'static str)
        ensures
            r@ == (match self {
                LockError::AlreadyLocked =>
                    "You can only lock an AssetList once, and only on the 'create' callback."@,
                LockError::NotAnIndex =>
                    "When locking an AssetList on specific members, you should only provide INT values to specify the indcies."@,
                LockError::LockedGet =>
                    "Tried to get an AssetList member, but the AssetList was locked. Note: You can provide an indcies array to the AssetList::lock method, to specify which members will still be available after the AssetList gets locked."@,
                LockError::LockedSet =>
                    "Tried to set an AssetList member, but the AssetList was locked. Note: You can provide an indcies array to the AssetList::lock method, to specify which members will still be available after the AssetList gets locked."@,
            }),
    {
        match self {
            LockError::AlreadyLocked =>
                "You can only lock an AssetList once, and only on the 'create' callback.",
            LockError::NotAnIndex =>
                "When locking an AssetList on specific members, you should only provide INT values to specify the indcies.",
            LockError::LockedGet =>
                "Tried to get an AssetList member, but the AssetList was locked. Note: You can provide an indcies array to the AssetList::lock method, to specify which members will still be available after the AssetList gets locked.",
            LockError::LockedSet =>
                "Tried to set an AssetList member, but the AssetList was locked. Note: You can provide an indcies array to the AssetList::lock method, to specify which members will still be available after the AssetList gets locked.",
        }
    }
}

/// The position an index names in a lockable list of `len` members: a
/// negative index counts from the end and stops at the first member, a
/// non-negative one stops at `len`, one past the last member. (`i64::MIN`
/// has no absolute value and names position 0; an index is cut to the
/// width of `usize` first.)
pub open spec fn list_position(idx: i64, len: usize) -> usize {
    if idx < 0 {
        if idx == i64::MIN {
            0
        } else {
            let n = (-idx) as usize;
            (len - (if n < len { n } else { len })) as usize
        }
    } else {
        let n = idx as usize;
        if n < len {
            n
        } else {
            len
        }
    }
}

/// How lockable list indices read: an index from 0 to `len` names that
/// position, an index from `-len` to -1 counts back from the end by its
/// magnitude, a larger index names position `len`, a smaller one the
/// first position, and no position is past `len`. (`i64::MIN`, which has
/// no absolute value, names the first position; an index whose magnitude
/// is above `usize::MAX`, possible on 32-bit targets, is first cut to its
/// low bits and is left out of the last two clauses.)
pub proof fn lemma_list_position_reads(idx: i64, len: usize)
    ensures
        list_position(idx, len) <= len,
        0 <= idx <= len ==> list_position(idx, len) == idx,
        -(len as int) <= idx < 0 && idx != i64::MIN ==> list_position(idx, len) == len + idx,
        idx == i64::MIN ==> list_position(idx, len) == 0,
        len < idx <= usize::MAX ==> list_position(idx, len) == len,
        idx < -(len as int) && -(idx as int) <= usize::MAX ==> list_position(idx, len) == 0,
{
    if idx < 0 && idx != i64::MIN && -(idx as int) <= usize::MAX {
        assert((-idx) as usize == -idx);
    }
    if 0 <= idx <= usize::MAX {
        assert(idx as usize == idx);
    }
}

/// Computes `list_position`.
pub fn list_position_of(idx: i64, len: usize) -> (r: usize)
    ensures
        r == list_position(idx, len),
        r <= len,
{
    if idx < 0 {
        if idx == i64::MIN {
            0
        } else {
            let n = (-idx) as usize;
            let m = if n < len {
                n
            } else {
                len
            };
            len - m
        }
    } else {
        let n = idx as usize;
        if n < len {
            n
        } else {
            len
        }
    }
}

/// The locked positions after the first `n` of `indices` are added to
/// `base`: each index, placed as `list_position` does, is added unless it
/// is there already. (A non-integer index, `None`, adds nothing.)
pub open spec fn locked_after(base: Seq<usize>, indices: Seq<Option<i64>>, len: usize, n: int) -> Seq<usize>
    decreases n,
{
    if n <= 0 {
        base
    } else {
        let prev = locked_after(base, indices, len, n - 1);
        match indices[n - 1] {
            Some(i) => if prev.contains(list_position(i, len)) {
                prev
            } else {
                prev.push(list_position(i, len))
            },
            None => prev,
        }
    }
}

/// `p` is the first position of `indices` that holds no integer.
pub open spec fn is_first_non_index(indices: Seq<Option<i64>>, p: int) -> bool {
    &&& 0 <= p < indices.len()
    &&& indices[p] is None
    &&& forall|q: int| 0 <= q < p ==> #[trigger] indices[q] is Some
}

/// The members a locked list still reaches: where the locked positions
/// are scanned for the rowid `id`, every position the scan looks at is a
/// member of the list.
pub open spec fn locked_scan_in_bounds<T: Asset>(members: Seq<T>, locked_on: Seq<usize>, id: u32) -> bool {
    forall|k: int|
        0 <= k < locked_on.len() && (forall|j: int| 0 <= j < k ==> members[#[trigger] locked_on[j] as int].asset_id() != id)
            ==> #[trigger] locked_on[k] < members.len()
}

/// No position is locked twice.
pub open spec fn no_duplicates(s: Seq<usize>) -> bool {
    forall|i: int, j: int| 0 <= i < s.len() && 0 <= j < s.len() && i != j ==> #[trigger] s[i] != #[trigger] s[j]
}

/// A list of assets an object uses, of which the first `len` are in use.
/// A script may lock the list once; a locked list only reaches the
/// members at the positions in `locked_on`.
pub struct AssetList<T: Clone> {
    pub members: Vec<T>,
    pub locked_on: Vec<usize>,
    pub len: usize,
    pub is_locked: bool,
}

impl<T: Clone> AssetList<T> {
    /// An unlocked list that uses every member of `vec`.
    pub fn new(vec: Vec<T>) -> (r: Self)
        ensures
            r.members@ == vec@,
            r.locked_on@.len() == 0,
            r.len == vec.len(),
            !r.is_locked,
    {
        let length = vec.len();
        AssetList { members: vec, locked_on: Vec::new(), len: length, is_locked: false }
    }

    /// How many members the list reaches: the locked ones once locked,
    /// the ones in use otherwise.
    pub fn len(&mut self) -> (r: i64)
        ensures
            r == (if old(self).is_locked {
                old(self).locked_on.len() as i64
            } else {
                old(self).len as i64
            }),
            *final(self) == *old(self),
    {
        if self.is_locked {
            self.locked_on.len() as i64
        } else {
            self.len as i64
        }
    }

    /// Locks the list on the positions `indices` name (placed as
    /// `list_position` does; `None` stands for a value that is not an
    /// integer). The indices are taken in order; at the first non-integer
    /// the list stays unlocked with the positions added so far.
    pub fn lock_with_indcies(&mut self, indices: &Vec<Option<i64>>) -> (r: Result<(), LockError>)
        ensures
            old(self).is_locked ==> r == Err::<(), LockError>(LockError::AlreadyLocked) && *final(self) == *old(self),
            !old(self).is_locked && (forall|q: int| 0 <= q < indices@.len() ==> #[trigger] indices@[q] is Some)
                ==> r is Ok && final(self).is_locked && final(self).locked_on@ == locked_after(
                old(self).locked_on@,
                indices@,
                old(self).len,
                indices@.len() as int,
            ),
            !old(self).is_locked ==> forall|p: int|
                #[trigger] is_first_non_index(indices@, p) ==> r == Err::<(), LockError>(LockError::NotAnIndex)
                    && !final(self).is_locked && final(self).locked_on@ == locked_after(
                    old(self).locked_on@,
                    indices@,
                    old(self).len,
                    p,
                ),
            final(self).members@ == old(self).members@,
            final(self).len == old(self).len,
    {
        if self.is_locked {
            return Err(LockError::AlreadyLocked);
        }
        let mut k: usize = 0;
        while k < indices.len()
            invariant
                !self.is_locked,
                !old(self).is_locked,
                self.members@ == old(self).members@,
                self.len == old(self).len,
                k <= indices.len(),
                forall|q: int| 0 <= q < k ==> #[trigger] indices@[q] is Some,
                self.locked_on@ == locked_after(old(self).locked_on@, indices@, self.len, k as int),
            decreases indices.len() - k,
        {
            match indices[k] {
                Some(idx) => {
                    let actual_index = list_position_of(idx, self.len);
                    let present = self.locked_on_contains(actual_index);
                    if !present {
                        self.locked_on.push(actual_index);
                    }
                },
                None => {
                    assert forall|p: int| #[trigger] is_first_non_index(indices@, p) implies p == k by {
                        if p < k {
                        } else if p > k {
                        }
                    }
                    return Err(LockError::NotAnIndex);
                },
            }
            k = k + 1;
        }
        self.is_locked = true;
        Ok(())
    }

    /// Locks the list on the positions it holds already.
    pub fn lock(&mut self) -> (r: Result<(), LockError>)
        ensures
            old(self).is_locked ==> r == Err::<(), LockError>(LockError::AlreadyLocked) && *final(self) == *old(self),
            !old(self).is_locked ==> r is Ok && *final(self) == (AssetList { is_locked: true, ..*old(self) }),
    {
        if self.is_locked {
            Err(LockError::AlreadyLocked)
        } else {
            self.is_locked = true;
            Ok(())
        }
    }

    /// Whether a locked list hides the member at the clamped position of
    /// `idx`.
    pub open spec fn hides(&self, idx: i64) -> bool {
        self.is_locked && !self.locked_on@.contains(list_position(idx, self.len))
    }

    fn locked_on_contains(&self, actual_index: usize) -> (r: bool)
        ensures
            r == self.locked_on@.contains(actual_index),
    {
        let mut j: usize = 0;
        while j < self.locked_on.len()
            invariant
                j <= self.locked_on.len(),
                forall|q: int| 0 <= q < j ==> #[trigger] self.locked_on@[q] != actual_index,
            decreases self.locked_on.len() - j,
        {
            if self.locked_on[j] == actual_index {
                return true;
            }
            j = j + 1;
        }
        false
    }

    /// A copy of the member at the clamped position of `idx`, unless the
    /// lock hides it.
    pub fn get_asset(&mut self, idx: i64) -> (r: Result<T, LockError>)
        requires
            !old(self).hides(idx) ==> list_position(idx, old(self).len) < old(self).members.len(),
        ensures
            old(self).hides(idx) ==> r is Err && r->Err_0 == LockError::LockedGet,
            !old(self).hides(idx) ==> (r matches Ok(a) && cloned(old(self).members@[list_position(idx, old(self).len) as int], a)),
            *final(self) == *old(self),
    {
        let actual_index = list_position_of(idx, self.len);
        if self.is_locked && !self.locked_on_contains(actual_index) {
            Err(LockError::LockedGet)
        } else {
            Ok(self.members[actual_index].clone())
        }
    }

    /// Replaces the member at the clamped position of `idx` with `asset`,
    /// unless the lock hides it.
    pub fn set_asset(&mut self, idx: i64, asset: T) -> (r: Result<(), LockError>)
        requires
            !old(self).hides(idx) ==> list_position(idx, old(self).len) < old(self).members.len(),
        ensures
            old(self).hides(idx) ==> r == Err::<(), LockError>(LockError::LockedSet) && final(self).members@ == old(self).members@,
            !old(self).hides(idx) ==> r is Ok && final(self).members@ == old(self).members@.update(
                list_position(idx, old(self).len) as int,
                asset,
            ),
            final(self).locked_on@ == old(self).locked_on@,
            final(self).len == old(self).len,
            final(self).is_locked == old(self).is_locked,
    {
        let actual_index = list_position_of(idx, self.len);
        if self.is_locked && !self.locked_on_contains(actual_index) {
            Err(LockError::LockedSet)
        } else {
            self.members.set(actual_index, asset);
            Ok(())
        }
    }
}

impl<T: Clone + Asset> AssetList<T> {
    /// Finds the member with rowid `id` (truncated to 32 bits) that the
    /// list reaches: on a locked list, the first locked position (in
    /// locking order) holding it; otherwise its first occurrence, if that
    /// is in use.
    pub fn contains(&mut self, id: i64) -> (r: Option<usize>)
        requires
            old(self).is_locked ==> locked_scan_in_bounds(old(self).members@, old(self).locked_on@, id as u32),
        ensures
            old(self).is_locked ==> match r {
                Some(p) => exists|k: int|
                    0 <= k < old(self).locked_on.len() && #[trigger] old(self).locked_on@[k] == p
                        && old(self).members@[p as int].asset_id() == id as u32
                        && forall|j: int| 0 <= j < k ==> old(self).members@[#[trigger] old(self).locked_on@[j] as int].asset_id() != id as u32,
                None => forall|k: int|
                    0 <= k < old(self).locked_on.len() ==> old(self).members@[#[trigger] old(self).locked_on@[k] as int].asset_id() != id as u32,
            },
            !old(self).is_locked ==> match r {
                Some(p) => p < old(self).len && first_with_id(old(self).members@, id as u32, p as int),
                None => forall|p: int|
                    #[trigger] first_with_id(old(self).members@, id as u32, p) ==> p >= old(self).len,
            },
            *final(self) == *old(self),
    {
        let target = id as u32;
        if self.is_locked {
            let mut k: usize = 0;
            while k < self.locked_on.len()
                invariant
                    *self == *old(self),
                    self.is_locked,
                    target == id as u32,
                    locked_scan_in_bounds(self.members@, self.locked_on@, target),
                    k <= self.locked_on.len(),
                    forall|j: int| 0 <= j < k ==> self.members@[#[trigger] self.locked_on@[j] as int].asset_id() != target,
                decreases self.locked_on.len() - k,
            {
                let index = self.locked_on[k];
                assert(index < self.members.len());
                if self.members[index].get_id() == target {
                    return Some(index);
                }
                k = k + 1;
            }
            None
        } else {
            let mut i: usize = 0;
            while i < self.members.len()
                invariant
                    *self == *old(self),
                    !self.is_locked,
                    target == id as u32,
                    i <= self.members.len(),
                    forall|q: int| 0 <= q < i ==> (#[trigger] self.members@[q]).asset_id() != target,
                decreases self.members.len() - i,
            {
                if self.members[i].get_id() == target {
                    if i < self.len {
                        return Some(i);
                    } else {
                        return None;
                    }
                }
                i = i + 1;
            }
            None
        }
    }

    /// Reuses the list, unlocked, for the assets with rowids `ids`
    /// (each truncated to 32 bits): the first `ids.len()` members are
    /// recycled (or created when the list is shorter) and the members past
    /// them are kept.
    pub fn recycle(&mut self, ids: Vec<i32>)
        ensures
            final(self).locked_on@.len() == 0,
            !final(self).is_locked,
            final(self).len == ids.len(),
            final(self).members.len() == (if ids.len() > old(self).members.len() {
                ids.len()
            } else {
                old(self).members.len()
            }),
            forall|i: int|
                0 <= i < ids.len() ==> (#[trigger] final(self).members@[i]).asset_id() == ids@[i] as u32
                    && final(self).members@[i].is_fresh(),
            forall|i: int|
                ids.len() <= i < old(self).members.len() ==> #[trigger] final(self).members@[i]
                    == old(self).members@[i],
    {
        self.locked_on.clear();
        self.is_locked = false;
        self.len = ids.len();
        let ghost old_members = self.members@;
        let mut i: usize = 0;
        while i < ids.len()
            invariant
                i <= ids.len(),
                self.locked_on@.len() == 0,
                !self.is_locked,
                self.len == ids.len(),
                self.members.len() == (if i > old_members.len() {
                    i as int
                } else {
                    old_members.len() as int
                }),
                forall|q: int|
                    0 <= q < i ==> (#[trigger] self.members@[q]).asset_id() == ids@[q] as u32
                        && self.members@[q].is_fresh(),
                forall|q: int|
                    i <= q < old_members.len() ==> #[trigger] self.members@[q] == old_members[q],
            decreases ids.len() - i,
        {
            let id = ids[i] as u32;
            if i < self.members.len() {
                self.members[i].recycle(id);
            } else {
                self.members.push(T::new(id));
            }
            i = i + 1;
        }
    }
}

/// Locking adds every position it is given at most once: a list whose
/// locked positions were distinct still has distinct locked positions.
pub proof fn lemma_locking_keeps_positions_distinct(base: Seq<usize>, indices: Seq<Option<i64>>, len: usize, n: int)
    requires
        no_duplicates(base),
        n <= indices.len(),
    ensures
        no_duplicates(locked_after(base, indices, len, n)),
    decreases n,
{
    if n > 0 {
        lemma_locking_keeps_positions_distinct(base, indices, len, n - 1);
        let prev = locked_after(base, indices, len, n - 1);
        match indices[n - 1] {
            Some(i) => {
                if !prev.contains(list_position(i, len)) {
                    let next = prev.push(list_position(i, len));
                    assert forall|a: int, b: int| 0 <= a < next.len() && 0 <= b < next.len() && a != b implies #[trigger] next[a] != #[trigger] next[b] by {
                        if a == prev.len() {
                            assert(next[b] == prev[b]);
                        } else if b == prev.len() {
                            assert(next[a] == prev[a]);
                        }
                    }
                }
            },
            None => {},
        }
    }
}

/// Every position locked so far stays locked as more indices are added,
/// and each integer index given is locked (clamped) afterwards: a locked
/// list reaches every member it was locked on.
pub proof fn lemma_locked_positions_reachable(base: Seq<usize>, indices: Seq<Option<i64>>, len: usize, n: int, q: int)
    requires
        0 <= q < n <= indices.len(),
        indices[q] is Some,
    ensures
        locked_after(base, indices, len, n).contains(list_position(indices[q]->0, len)),
    decreases n,
{
    let target = list_position(indices[q]->0, len);
    let prev = locked_after(base, indices, len, n - 1);
    if q == n - 1 {
        if !prev.contains(target) {
            assert(prev.push(target)[prev.len() as int] == target);
        }
    } else {
        lemma_locked_positions_reachable(base, indices, len, n - 1, q);
        let w = choose|w: int| 0 <= w < prev.len() && prev[w] == target;
        match indices[n - 1] {
            Some(i) => {
                if !prev.contains(list_position(i, len)) {
                    assert(prev.push(list_position(i, len))[w] == target);
                }
            },
            None => {},
        }
    }
}

} // verus!
