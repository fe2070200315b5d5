//! Asset properties that an object holds (sprites, audio clips, fonts) and
//! the `AssetList` that an object switches between.
//!
//! Time and volume fields are carried as the bit patterns of the floating
//! point numbers that the renderer and the script API read and write
//! (`f64::to_bits` / `f32::to_bits`); nothing here does arithmetic on them.

use vstd::prelude::*;

verus! {

/// The bit pattern of the `f64` number `0.0`.
pub const ZERO_F64_BITS: u64 = 0u64;

/// The bit pattern of the `f32` number `1.0`.
pub const ONE_F32_BITS: u32 = 0x3F80_0000u32;

/// The common interface of the asset property types, which `AssetList`
/// is built on.
pub trait Asset: Sized {
    /// The asset's rowid.
    spec fn asset_id(&self) -> u32;

    /// Whether every property other than the rowid holds the value that
    /// `new` and `recycle` give it.
    spec fn is_fresh(&self) -> bool;

    /// Get the asset's rowid.
    fn get_id(&self) -> (r: u32)
        ensures
            r == self.asset_id(),
    ;

    /// Recycle the asset properties for the asset with rowid `new_id`.
    fn recycle(&mut self, new_id: u32)
        ensures
            final(self).asset_id() == new_id,
            final(self).is_fresh(),
    ;

    /// Create new asset properties for the asset with rowid `new_id`.
    fn new(new_id: u32) -> (r: Self)
        ensures
            r.asset_id() == new_id,
            r.is_fresh(),
    ;
}

/// Why a sprite refused a change while one of its animations was playing.
#[derive(Clone, Copy, Debug, PartialEq, Eq)]
pub enum PlaybackError {
    /// `set_cur_animation` was called while an animation was playing.
    AnimationWhilePlaying,
    /// `set_cur_frame` was called while an animation was playing.
    FrameWhilePlaying,
}

impl PlaybackError {
    /// The message the script sees.
    pub fn message(&self) -> (r: &'static str)
        ensures
            r@ == (match self {
                PlaybackError::AnimationWhilePlaying =>
                    "Tried to set the current animation while an animation was playing. Note: To start playing another animation while an animation is playing, use the 'play_animation' method, and if you want it to loop, provide the optional 'repeat' boolean parameter."@,
                PlaybackError::FrameWhilePlaying =>
                    "Tried to set the current frame while an animation was playing. Note: To start playing another animation while an animation is playing, use the 'play_animation' method, and if you want it to loop, provide the optional 'repeat' boolean parameter."@,
            }),
    {
        match self {
            PlaybackError::AnimationWhilePlaying =>
                "Tried to set the current animation while an animation was playing. Note: To start playing another animation while an animation is playing, use the 'play_animation' method, and if you want it to loop, provide the optional 'repeat' boolean parameter.",
            PlaybackError::FrameWhilePlaying =>
                "Tried to set the current frame while an animation was playing. Note: To start playing another animation while an animation is playing, use the 'play_animation' method, and if you want it to loop, provide the optional 'repeat' boolean parameter.",
        }
    }
}

/// A sprite's properties for a specific `Object`.
pub struct Sprite {
    pub id: u32,
    pub cur_animation: String,
    pub cur_frame: u32,
    pub is_animation_finished: bool,
    /// Milliseconds into the current animation, as `f64` bits.
    pub animation_time: u64,
    pub repeat: bool,
}

/// Two sprite property sets agree field by field.
pub open spec fn same_sprite(a: Sprite, b: Sprite) -> bool {
    &&& a.id == b.id
    &&& a.cur_animation@ == b.cur_animation@
    &&& a.cur_frame == b.cur_frame
    &&& a.is_animation_finished == b.is_animation_finished
    &&& a.animation_time == b.animation_time
    &&& a.repeat == b.repeat
}

impl Clone for Sprite {
    fn clone(&self) -> (r: Self)
        ensures
            r.id == self.id,
            r.cur_animation@ == self.cur_animation@,
            r.cur_frame == self.cur_frame,
            r.is_animation_finished == self.is_animation_finished,
            r.animation_time == self.animation_time,
            r.repeat == self.repeat,
    {
        Sprite {
            id: self.id,
            cur_animation: self.cur_animation.clone(),
            cur_frame: self.cur_frame,
            is_animation_finished: self.is_animation_finished,
            animation_time: self.animation_time,
            repeat: self.repeat,
        }
    }
}

impl Sprite {
    pub fn get_id_rhai(&mut self) -> (r: i64)
        ensures
            r == old(self).id as i64,
            *final(self) == *old(self),
    {
        self.id as i64
    }

    pub fn get_cur_animation(&mut self) -> (r: String)
        ensures
            r@ == old(self).cur_animation@,
            *final(self) == *old(self),
    {
        self.cur_animation.clone()
    }

    pub fn get_cur_frame(&mut self) -> (r: i64)
        ensures
            r == old(self).cur_frame as i64,
            *final(self) == *old(self),
    {
        self.cur_frame as i64
    }

    pub fn get_is_animation_finished(&mut self) -> (r: bool)
        ensures
            r == old(self).is_animation_finished,
            *final(self) == *old(self),
    {
        self.is_animation_finished
    }

    pub fn get_repeat(&mut self) -> (r: bool)
        ensures
            r == old(self).repeat,
            *final(self) == *old(self),
    {
        self.repeat
    }

    /// The animation clock, as `f64` bits.
    pub fn get_animation_time_bits(&mut self) -> (r: u64)
        ensures
            r == old(self).animation_time,
            *final(self) == *old(self),
    {
        self.animation_time
    }

    /// Sets the sprite up to play the animation `name` from its start at
    /// the next rendering frame.
    pub fn play_animation(&mut self, name: &str)
        ensures
            final(self).cur_animation@ == name@,
            final(self).cur_frame == 0,
            final(self).animation_time == ZERO_F64_BITS,
            !final(self).repeat,
            !final(self).is_animation_finished,
            final(self).id == old(self).id,
    {
        self.cur_animation = String::from_str(name);
        self.cur_frame = 0;
        self.animation_time = ZERO_F64_BITS;
        self.repeat = false;
        self.is_animation_finished = false;
    }

    /// Sets the sprite up to play the animation `name` from the time
    /// `time_bits` (milliseconds, as `f64` bits) at the next rendering frame.
    pub fn play_animation_on_time(&mut self, name: &str, time_bits: u64)
        ensures
            final(self).cur_animation@ == name@,
            final(self).cur_frame == 0,
            final(self).animation_time == time_bits,
            !final(self).repeat,
            !final(self).is_animation_finished,
            final(self).id == old(self).id,
    {
        self.cur_animation = String::from_str(name);
        self.cur_frame = 0;
        self.animation_time = time_bits;
        self.repeat = false;
        self.is_animation_finished = false;
    }

    pub fn set_repeat(&mut self, value: bool)
        ensures
            *final(self) == (Sprite { repeat: value, ..*old(self) }),
    {
        self.repeat = value;
    }

    pub fn set_is_animation_finished(&mut self, value: bool)
        ensures
            *final(self) == (Sprite { is_animation_finished: value, ..*old(self) }),
    {
        self.is_animation_finished = value;
    }

    /// Sets the current animation; refused while an animation is playing.
    pub fn set_cur_animation(&mut self, value: &str) -> (r: Result<(), PlaybackError>)
        ensures
            r is Err <==> !old(self).is_animation_finished,
            r is Err ==> r == Err::<(), PlaybackError>(PlaybackError::AnimationWhilePlaying)
                && *final(self) == *old(self),
            r is Ok ==> final(self).cur_animation@ == value@ && final(self).id == old(self).id
                && final(self).cur_frame == old(self).cur_frame
                && final(self).is_animation_finished == old(self).is_animation_finished
                && final(self).animation_time == old(self).animation_time
                && final(self).repeat == old(self).repeat,
    {
        if !self.is_animation_finished {
            return Err(PlaybackError::AnimationWhilePlaying);
        }
        self.cur_animation = String::from_str(value);
        Ok(())
    }

    /// Sets the current frame (truncated to 32 bits); refused while an
    /// animation is playing.
    pub fn set_cur_frame(&mut self, value: i64) -> (r: Result<(), PlaybackError>)
        ensures
            r is Err <==> !old(self).is_animation_finished,
            r is Err ==> r == Err::<(), PlaybackError>(PlaybackError::FrameWhilePlaying)
                && *final(self) == *old(self),
            r is Ok ==> *final(self) == (Sprite { cur_frame: value as u32, ..*old(self) }),
    {
        if !self.is_animation_finished {
            return Err(PlaybackError::FrameWhilePlaying);
        }
        self.cur_frame = value as u32;
        Ok(())
    }
}

impl Asset for Sprite {
    open spec fn asset_id(&self) -> u32 {
        self.id
    }

    open spec fn is_fresh(&self) -> bool {
        &&& self.cur_animation@ == Seq::<char>::empty()
        &&& self.cur_frame == 0
        &&& self.is_animation_finished
        &&& self.animation_time == ZERO_F64_BITS
        &&& !self.repeat
    }

    fn get_id(&self) -> (r: u32) {
        self.id
    }

    fn recycle(&mut self, new_id: u32) {
        self.id = new_id;
        self.cur_animation = String::new();
        self.cur_frame = 0;
        self.is_animation_finished = true;
        self.animation_time = ZERO_F64_BITS;
        self.repeat = false;
    }

    fn new(new_id: u32) -> (r: Self) {
        Sprite {
            id: new_id,
            cur_animation: String::new(),
            cur_frame: 0,
            is_animation_finished: true,
            animation_time: ZERO_F64_BITS,
            repeat: false,
        }
    }
}

/// An audio clip's properties for a specific `Object`.
///
/// The audio system itself is not part of the engine; scripts can read and
/// write these properties but nothing plays them.
#[derive(Clone)]
pub struct Audio {
    pub id: u32,
    pub tag: String,
    pub own_tag: bool,
    pub replay: bool,
    /// The volume, as `f32` bits.
    pub volume: u32,
    pub paused: bool,
    pub repeat: bool,
    /// Where a repetition starts, as `f64` bits.
    pub repeat_start_time: u64,
    /// The playing position, as `f64` bits.
    pub audio_time: u64,
}

impl Audio {
    pub fn get_id_rhai(&mut self) -> (r: i64)
        ensures
            r == old(self).id as i64,
            *final(self) == *old(self),
    {
        self.id as i64
    }

    pub fn get_tag(&mut self) -> (r: String)
        ensures
            r@ == old(self).tag@,
            *final(self) == *old(self),
    {
        self.tag.clone()
    }

    pub fn get_paused(&mut self) -> (r: bool)
        ensures
            r == old(self).paused,
            *final(self) == *old(self),
    {
        self.paused
    }

    pub fn get_repeat(&mut self) -> (r: bool)
        ensures
            r == old(self).repeat,
            *final(self) == *old(self),
    {
        self.repeat
    }

    /// Plays the clip from its start.
    pub fn play(&mut self)
        ensures
            *final(self) == (Audio {
                audio_time: ZERO_F64_BITS,
                paused: false,
                replay: true,
                ..*old(self)
            }),
    {
        self.audio_time = ZERO_F64_BITS;
        self.paused = false;
        self.replay = true;
    }

    /// Takes over the tag `tag`, which this clip then does not own.
    pub fn obtain_tag(&mut self, tag: &str)
        ensures
            final(self).tag@ == tag@,
            !final(self).own_tag,
            final(self).id == old(self).id,
            final(self).replay == old(self).replay,
            final(self).volume == old(self).volume,
            final(self).paused == old(self).paused,
            final(self).repeat == old(self).repeat,
            final(self).repeat_start_time == old(self).repeat_start_time,
            final(self).audio_time == old(self).audio_time,
    {
        self.tag = String::from_str(tag);
        self.own_tag = false;
    }

    pub fn set_volume_bits(&mut self, value: u32)
        ensures
            *final(self) == (Audio { volume: value, ..*old(self) }),
    {
        self.volume = value;
    }

    pub fn set_repeat_start_time_bits(&mut self, value: u64)
        ensures
            *final(self) == (Audio { repeat_start_time: value, ..*old(self) }),
    {
        self.repeat_start_time = value;
    }

    pub fn set_repeat(&mut self, value: bool)
        ensures
            *final(self) == (Audio { repeat: value, ..*old(self) }),
    {
        self.repeat = value;
    }

    pub fn set_paused(&mut self, value: bool)
        ensures
            *final(self) == (Audio { paused: value, ..*old(self) }),
    {
        self.paused = value;
    }
}

impl Asset for Audio {
    open spec fn asset_id(&self) -> u32 {
        self.id
    }

    open spec fn is_fresh(&self) -> bool {
        &&& self.tag@ == Seq::<char>::empty()
        &&& self.audio_time == ZERO_F64_BITS
        &&& !self.paused
        &&& !self.repeat
        &&& self.volume == ONE_F32_BITS
        &&& !self.replay
        &&& self.repeat_start_time == ZERO_F64_BITS
        &&& !self.own_tag
    }

    fn get_id(&self) -> (r: u32) {
        self.id
    }

    fn recycle(&mut self, new_id: u32) {
        self.id = new_id;
        self.tag = String::new();
        self.audio_time = ZERO_F64_BITS;
        self.paused = false;
        self.repeat = false;
        self.volume = ONE_F32_BITS;
        self.replay = false;
        self.repeat_start_time = ZERO_F64_BITS;
        self.own_tag = false;
    }

    fn new(new_id: u32) -> (r: Self) {
        Audio {
            id: new_id,
            tag: String::new(),
            audio_time: ZERO_F64_BITS,
            paused: false,
            repeat: false,
            volume: ONE_F32_BITS,
            replay: false,
            repeat_start_time: ZERO_F64_BITS,
            own_tag: false,
        }
    }
}

/// A font's properties for a specific `Object`.
///
/// The font system itself is not part of the engine; scripts can read and
/// write the text but nothing draws it.
#[derive(Clone)]
pub struct Font {
    pub id: u32,
    pub text: String,
}

impl Font {
    pub fn get_id_rhai(&mut self) -> (r: i64)
        ensures
            r == old(self).id as i64,
            *final(self) == *old(self),
    {
        self.id as i64
    }

    pub fn get_text(&mut self) -> (r: String)
        ensures
            r@ == old(self).text@,
            *final(self) == *old(self),
    {
        self.text.clone()
    }

    pub fn set_text(&mut self, value: &str)
        ensures
            final(self).text@ == value@,
            final(self).id == old(self).id,
    {
        self.text = String::from_str(value);
    }
}

impl Asset for Font {
    open spec fn asset_id(&self) -> u32 {
        self.id
    }

    open spec fn is_fresh(&self) -> bool {
        self.text@ == Seq::<char>::empty()
    }

    fn get_id(&self) -> (r: u32) {
        self.id
    }

    fn recycle(&mut self, new_id: u32) {
        self.id = new_id;
        self.text = String::new();
    }

    fn new(new_id: u32) -> (r: Self) {
        Font { id: new_id, text: String::new() }
    }
}

/// The position an index names in a list of `len` members: a negative
/// index counts from the end and stops at the first member, a
/// non-negative one stops at the last member. (An empty list has only
/// position 0.)
pub open spec fn clamp_index(idx: i64, len: usize) -> usize {
    if idx < 0 {
        if -(idx as int) < len {
            (len + idx) as usize
        } else {
            0
        }
    } else {
        if idx < len {
            idx as usize
        } else if len > 0 {
            (len - 1) as usize
        } else {
            0
        }
    }
}

/// How list indices read: an index from 0 to `len - 1` names that
/// position, an index from `-len` to -1 counts back from the end, a larger
/// index names the last member, a smaller one the first, and every index
/// names a member of a non-empty list.
pub proof fn lemma_clamp_index_reads(idx: i64, len: usize)
    ensures
        len > 0 ==> clamp_index(idx, len) < len,
        len == 0 ==> clamp_index(idx, len) == 0,
        0 <= idx < len ==> clamp_index(idx, len) == idx,
        -(len as int) <= idx < 0 ==> clamp_index(idx, len) == len + idx,
        len <= idx && len > 0 ==> clamp_index(idx, len) == len - 1,
        idx < -(len as int) ==> clamp_index(idx, len) == 0,
{
}

/// Computes `clamp_index`.
pub fn clamped_index(idx: i64, len: usize) -> (r: usize)
    ensures
        r == clamp_index(idx, len),
        len > 0 ==> r < len,
        len == 0 ==> r == 0,
{
    let count = len as u64;
    if idx < 0 {
        let magnitude: u64 = if idx == i64::MIN {
            0x8000_0000_0000_0000u64
        } else {
            (-idx) as u64
        };
        if magnitude < count {
            len - (magnitude as usize)
        } else {
            0
        }
    } else {
        let n = idx as u64;
        if n < count {
            n as usize
        } else if len > 0 {
            len - 1
        } else {
            0
        }
    }
}

/// Writing an asset into a list and reading the same index back gives the
/// written asset, when the written asset has the rowid of the member it
/// replaces (`set_asset` ignores any other).
pub proof fn lemma_set_then_get<T: Asset>(members: Seq<T>, len: usize, idx: i64, asset: T)
    requires
        clamp_index(idx, len) < members.len(),
        members[clamp_index(idx, len) as int].asset_id() == asset.asset_id(),
    ensures
        ({
            let written = if members[clamp_index(idx, len) as int].asset_id() == asset.asset_id() {
                members.update(clamp_index(idx, len) as int, asset)
            } else {
                members
            };
            written[clamp_index(idx, len) as int] == asset
        }),
{
}

/// The first position in `members` that holds the asset with rowid `id`.
pub open spec fn first_with_id<T: Asset>(members: Seq<T>, id: u32, p: int) -> bool {
    &&& 0 <= p < members.len()
    &&& members[p].asset_id() == id
    &&& forall|q: int| 0 <= q < p ==> (#[trigger] members[q]).asset_id() != id
}

/// An established list of assets which an `Object` uses one at a time,
/// switching between them with the `cur_asset` cursor. Only the first
/// `len` members are in use; recycling keeps the members past `len` for
/// later reuse.
pub struct AssetList<T: Clone + Asset> {
    pub members: Vec<T>,
    pub cur_asset: usize,
    pub len: usize,
}

impl<T: Clone + Asset> Clone for AssetList<T> {
    fn clone(&self) -> (r: Self)
        ensures
            r.members.len() == self.members.len(),
            forall|i: int| 0 <= i < self.members.len() ==> cloned(#[trigger] self.members@[i], r.members@[i]),
            r.cur_asset == self.cur_asset,
            r.len == self.len,
    {
        AssetList { members: self.members.clone(), cur_asset: self.cur_asset, len: self.len }
    }
}

impl<T: Clone + Asset> AssetList<T> {
    /// Creates a list that uses every member of `vec`.
    pub fn new(vec: Vec<T>) -> (r: Self)
        ensures
            r.members@ == vec@,
            r.cur_asset == 0,
            r.len == vec.len(),
    {
        let length = vec.len();
        AssetList { members: vec, cur_asset: 0, len: length }
    }

    pub fn len(&mut self) -> (r: i64)
        ensures
            r == old(self).len as i64,
            *final(self) == *old(self),
    {
        self.len as i64
    }

    pub fn get_cur_asset(&mut self) -> (r: i64)
        ensures
            r == old(self).cur_asset as i64,
            *final(self) == *old(self),
    {
        self.cur_asset as i64
    }

    /// Moves the cursor; a negative value counts from the end, and the
    /// result is clamped onto a member in use (the first or the last)
    /// instead of raising an error.
    pub fn set_cur_asset(&mut self, value: i64)
        ensures
            final(self).cur_asset == clamp_index(value, old(self).len),
            old(self).len > 0 ==> final(self).cur_asset < old(self).len,
            old(self).len == 0 ==> final(self).cur_asset == 0,
            final(self).members@ == old(self).members@,
            final(self).len == old(self).len,
    {
        self.cur_asset = clamped_index(value, self.len);
    }

    /// A copy of the member at the clamped position of `idx`.
    pub fn get_asset(&mut self, idx: i64) -> (r: T)
        requires
            clamp_index(idx, old(self).len) < old(self).members.len(),
        ensures
            cloned(old(self).members@[clamp_index(idx, old(self).len) as int], r),
            final(self).members@ == old(self).members@,
            final(self).cur_asset == old(self).cur_asset,
            final(self).len == old(self).len,
    {
        let actual_index = clamped_index(idx, self.len);
        self.members[actual_index].clone()
    }

    /// Replaces the member at the clamped position of `idx` with `asset`,
    /// provided both are the same asset (same rowid); otherwise the list
    /// is left as it was.
    pub fn set_asset(&mut self, idx: i64, asset: T)
        requires
            clamp_index(idx, old(self).len) < old(self).members.len(),
        ensures
            final(self).members@ == (if old(self).members@[clamp_index(
                idx,
                old(self).len,
            ) as int].asset_id() == asset.asset_id() {
                old(self).members@.update(clamp_index(idx, old(self).len) as int, asset)
            } else {
                old(self).members@
            }),
            final(self).cur_asset == old(self).cur_asset,
            final(self).len == old(self).len,
    {
        let actual_index = clamped_index(idx, self.len);
        if self.members[actual_index].get_id() == asset.get_id() {
            self.members.set(actual_index, asset);
        }
    }

    /// Finds the in-use member with rowid `id` (truncated to 32 bits), by
    /// its first occurrence in the list.
    pub fn find(&mut self, id: i64) -> (r: Option<usize>)
        ensures
            match r {
                Some(p) => p < old(self).len && first_with_id(old(self).members@, id as u32, p as int),
                None => forall|p: int|
                    #[trigger] first_with_id(old(self).members@, id as u32, p) ==> p >= old(self).len,
            },
            *final(self) == *old(self),
    {
        let target = id as u32;
        let mut i: usize = 0;
        while i < self.members.len()
            invariant
                i <= self.members.len(),
                target == id as u32,
                *self == *old(self),
                forall|q: int| 0 <= q < i ==> (#[trigger] self.members@[q]).asset_id() != target,
            decreases self.members.len() - i,
        {
            if self.members[i].get_id() == target {
                if i < self.len {
                    return Some(i);
                } else {
                    return None;
                }
            }
            i = i + 1;
        }
        None
    }

    /// Reuses the list for the assets with rowids `ids`: the first
    /// `ids.len()` members are recycled (or created when the list is
    /// shorter), the members past them are kept, and the cursor goes back
    /// to the first member.
    pub fn recycle(&mut self, ids: &Vec<u32>)
        ensures
            final(self).cur_asset == 0,
            final(self).len == ids.len(),
            final(self).members.len() == (if ids.len() > old(self).members.len() {
                ids.len()
            } else {
                old(self).members.len()
            }),
            forall|i: int|
                0 <= i < ids.len() ==> (#[trigger] final(self).members@[i]).asset_id() == ids@[i]
                    && final(self).members@[i].is_fresh(),
            forall|i: int|
                ids.len() <= i < old(self).members.len() ==> #[trigger] final(self).members@[i]
                    == old(self).members@[i],
    {
        self.cur_asset = 0;
        self.len = ids.len();
        let ghost old_members = self.members@;
        let mut index: usize = 0;
        while index < ids.len()
            invariant
                index <= ids.len(),
                self.cur_asset == 0,
                self.len == ids.len(),
                self.members.len() == (if index > old_members.len() {
                    index as int
                } else {
                    old_members.len() as int
                }),
                forall|i: int|
                    0 <= i < index ==> (#[trigger] self.members@[i]).asset_id() == ids@[i]
                        && self.members@[i].is_fresh(),
                forall|i: int|
                    index <= i < old_members.len() ==> #[trigger] self.members@[i]
                        == old_members[i],
            decreases ids.len() - index,
        {
            let id = ids[index];
            if index < self.members.len() {
                self.members[index].recycle(id);
            } else {
                self.members.push(T::new(id));
            }
            index = index + 1;
        }
    }
}

} // verus!
