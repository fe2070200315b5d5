//! Element properties: colours, layers and the scene's layer registry.

use vstd::prelude::*;

use crate::asset::{same_sprite, Asset, AssetList, Sprite};
use crate::text::{decimal, push_decimal};

verus! {

broadcast use vstd::string::group_string_axioms;

/// The value of the ASCII hexadecimal digit with code point `c`, or -1
/// for any other character.
pub open spec fn hex_digit_value(c: int) -> int {
    if 48 <= c <= 57 {
        c - 48
    } else if 97 <= c <= 102 {
        c - 87
    } else if 65 <= c <= 70 {
        c - 55
    } else {
        -1
    }
}

pub open spec fn is_hex_digit(c: int) -> bool {
    hex_digit_value(c) >= 0
}

/// A two-character string (given by code points) that
/// `u8::from_str_radix(_, 16)` accepts: two hex digits, or a `+` sign
/// (code point 43) followed by one hex digit.
pub open spec fn is_hex_byte(a: int, b: int) -> bool {
    is_hex_digit(b) && (is_hex_digit(a) || a == 43)
}

/// The byte that `u8::from_str_radix(_, 16)` reads from such a pair.
pub open spec fn hex_byte_value(a: int, b: int) -> int {
    if a == 43 {
        hex_digit_value(b)
    } else {
        16 * hex_digit_value(a) + hex_digit_value(b)
    }
}

/// How many two-character groups follow the leading `#`.
pub open spec fn hex_group_count(s: Seq<char>) -> int {
    if s.len() <= 1 {
        0
    } else {
        (s.len() - 1) / 2
    }
}

/// The strings `hex_color_to_rgba` accepts: ASCII text whose first
/// character is skipped and whose remaining characters form at most four
/// complete two-character hex groups.
pub open spec fn is_hex_color(s: Seq<char>) -> bool {
    &&& vstd::utf8::is_ascii_chars(s)
    &&& (s.len() <= 1 || (s.len() % 2 == 1 && s.len() <= 9))
    &&& forall|k: int|
        0 <= k < hex_group_count(s) ==> #[trigger] is_hex_byte(s[1 + 2 * k] as int, s[2 + 2 * k] as int)
}

/// Channel `k` of the colour written in `s`: the `k`th group, or
/// `default` when the string has fewer groups.
pub open spec fn hex_color_channel(s: Seq<char>, k: int, default: int) -> int {
    if k < hex_group_count(s) {
        hex_byte_value(s[1 + 2 * k] as int, s[2 + 2 * k] as int)
    } else {
        default
    }
}

/// The RGBA bytes of a colour written as `#RRGGBB` or `#RRGGBBAA`:
/// missing channels are 0, a missing alpha is 255.
pub open spec fn hex_color_rgba(s: Seq<char>) -> Seq<u8> {
    seq![
        hex_color_channel(s, 0, 0) as u8,
        hex_color_channel(s, 1, 0) as u8,
        hex_color_channel(s, 2, 0) as u8,
        hex_color_channel(s, 3, 255) as u8,
    ]
}

/// Hexadecimal digits are read as `u8::from_str_radix(_, 16)` reads them:
/// '0' to '9' are worth 0 to 9, 'a' to 'f' and 'A' to 'F' are worth 10 to
/// 15, and no other character is a digit.
pub proof fn lemma_hex_digit_values(c: char)
    ensures
        '0' <= c <= '9' ==> is_hex_digit(c as int) && hex_digit_value(c as int) == (c as int) - ('0' as int),
        'a' <= c <= 'f' ==> is_hex_digit(c as int) && hex_digit_value(c as int) == (c as int) - ('a' as int)
            + 10,
        'A' <= c <= 'F' ==> is_hex_digit(c as int) && hex_digit_value(c as int) == (c as int) - ('A' as int)
            + 10,
        !('0' <= c <= '9' || 'a' <= c <= 'f' || 'A' <= c <= 'F') ==> !is_hex_digit(c as int),
{
}

/// A `#` followed by six hexadecimal digits is a colour code: red, green
/// and blue are its three two-digit groups in order, the first digit of
/// each counting sixteen times the second, and the colour is opaque.
pub proof fn lemma_six_digit_color(s: Seq<char>)
    requires
        s.len() == 7,
        s[0] == '#',
        forall|i: int| 1 <= i < 7 ==> ('0' <= #[trigger] s[i] <= '9' || 'a' <= s[i] <= 'f' || 'A' <= s[i] <= 'F'),
    ensures
        is_hex_color(s),
        hex_color_rgba(s) == seq![
            (16 * hex_digit_value(s[1] as int) + hex_digit_value(s[2] as int)) as u8,
            (16 * hex_digit_value(s[3] as int) + hex_digit_value(s[4] as int)) as u8,
            (16 * hex_digit_value(s[5] as int) + hex_digit_value(s[6] as int)) as u8,
            255u8,
        ],
        forall|i: int| 1 <= i < 7 ==> 0 <= #[trigger] hex_digit_value(s[i] as int) < 16,
{
    assert forall|i: int| 1 <= i < 7 implies is_hex_digit(#[trigger] s[i] as int) && 0 <= hex_digit_value(
        s[i] as int,
    ) < 16 && s[i] as int != 43 by {
        lemma_hex_digit_values(s[i]);
    }
    assert(vstd::utf8::is_ascii_chars(s)) by {
        assert forall|i: int| 0 <= i < s.len() implies '\0' <= #[trigger] s[i] <= '\u{7f}' by {
            if i > 0 {
                lemma_hex_digit_values(s[i]);
            }
        }
    }
    assert(hex_group_count(s) == 3);
    assert forall|k: int| 0 <= k < hex_group_count(s) implies #[trigger] is_hex_byte(
        s[1 + 2 * k] as int,
        s[2 + 2 * k] as int,
    ) by {
        assert(is_hex_digit(s[1 + 2 * k] as int));
        assert(is_hex_digit(s[2 + 2 * k] as int));
    }
    assert(s[1] as int != 43 && s[3] as int != 43 && s[5] as int != 43);
    assert(hex_color_rgba(s) =~= seq![
        (16 * hex_digit_value(s[1] as int) + hex_digit_value(s[2] as int)) as u8,
        (16 * hex_digit_value(s[3] as int) + hex_digit_value(s[4] as int)) as u8,
        (16 * hex_digit_value(s[5] as int) + hex_digit_value(s[6] as int)) as u8,
        255u8,
    ]);
}

fn hex_digit(b: u8) -> (r: Option<u8>)
    ensures
        match r {
            Some(v) => is_hex_digit(b as int) && v as int == hex_digit_value(b as int),
            None => !is_hex_digit(b as int),
        },
{
    if 48 <= b && b <= 57 {
        Some(b - 48)
    } else if 97 <= b && b <= 102 {
        Some(b - 87)
    } else if 65 <= b && b <= 70 {
        Some(b - 55)
    } else {
        None
    }
}

/// Reads one two-character group the way `u8::from_str_radix(_, 16)` does.
fn hex_byte(a: u8, b: u8) -> (r: Option<u8>)
    ensures
        match r {
            Some(v) => is_hex_byte(a as int, b as int) && v as int == hex_byte_value(
                a as int,
                b as int,
            ),
            None => !is_hex_byte(a as int, b as int),
        },
{
    let low = match hex_digit(b) {
        Some(v) => v,
        None => return None,
    };
    if a == 43 {
        return Some(low);
    }
    match hex_digit(a) {
        Some(high) => Some(high * 16 + low),
        None => None,
    }
}

/// Parses `#RRGGBB` / `#RRGGBBAA` into RGBA bytes, or returns `None`
/// on the strings that `hex_color_to_rgba` does not accept.
pub fn parse_hex_color(hex: &str) -> (r: Option<[u8; 4]>)
    ensures
        r is Some <==> is_hex_color(hex@),
        r matches Some(c) ==> c@ == hex_color_rgba(hex@),
{
    proof {
        vstd::utf8::is_ascii_chars_nat_bound(hex@);
    }
    if !hex.is_ascii() {
        return None;
    }
    let bytes = hex.as_bytes();
    let n = bytes.len();
    proof {
        assert forall|j: int| 0 <= j < n implies bytes@[j] as int == #[trigger] hex@[j] as int
            && (hex@[j] as int) < 128 by {
            assert(bytes@[j] == hex@[j] as u8);
            assert((hex@[j] as int) < 128);
        }
    }
    if n > 1 && (n % 2 == 0 || n > 9) {
        return None;
    }
    let mut result: [u8; 4] = [0, 0, 0, 255];
    let mut i: usize = 0;
    let mut si: usize = 1;
    while si < n
        invariant
            n == hex@.len(),
            n == bytes@.len(),
            forall|j: int| 0 <= j < n ==> bytes@[j] as int == #[trigger] hex@[j] as int && (hex@[j] as int) < 128,
            n <= 1 || (n % 2 == 1 && n <= 9),
            si == 1 + 2 * i,
            si <= n + 1,
            i <= 4,
            si < n ==> i < hex_group_count(hex@),
            i <= hex_group_count(hex@),
            forall|k: int| 0 <= k < i ==> #[trigger] is_hex_byte(hex@[1 + 2 * k] as int, hex@[2 + 2 * k] as int),
            forall|k: int| 0 <= k < 4 ==> result@[k] == (if k < i {
                hex_color_channel(hex@, k, 0) as u8
            } else if k == 3 {
                255u8
            } else {
                0u8
            }),
        decreases n - si,
    {
        let a = bytes[si];
        let b = bytes[si + 1];
        proof {
            assert(a as int == hex@[si as int] as int);
            assert(b as int == hex@[si + 1] as int);
        }
        match hex_byte(a, b) {
            Some(v) => {
                result[i] = v;
            },
            None => {
                assert(!is_hex_byte(hex@[1 + 2 * (i as int)] as int, hex@[2 + 2 * (i as int)] as int));
                return None;
            },
        }
        si = si + 2;
        i = i + 1;
    }
    proof {
        assert(i == hex_group_count(hex@));
    }
    assert(result@ =~= hex_color_rgba(hex@));
    Some(result)
}

/// Receives a hex colour code (`#RRGGBBAA` / `#RRGGBB`) and converts it
/// into RGBA bytes. The character before the groups is not looked at, and
/// a missing alpha group reads as 255.
pub fn hex_color_to_rgba(hex: &str) -> (r: [u8; 4])
    requires
        is_hex_color(hex@),
    ensures
        r@ == hex_color_rgba(hex@),
{
    match parse_hex_color(hex) {
        Some(c) => c,
        None => [0, 0, 0, 255],
    }
}

/// A point in element properties; the coordinates are `f32` bits.
#[derive(Clone, Copy, Debug, PartialEq, Eq)]
pub struct ElemPoint {
    pub x: u32,
    pub y: u32,
}

/// An RGBA colour in element properties.
#[derive(Clone, Copy, Debug, PartialEq, Eq)]
pub struct ElemColor {
    pub r: u8,
    pub g: u8,
    pub b: u8,
    pub a: u8,
}

impl ElemColor {
    pub fn get_r(&mut self) -> (v: i64)
        ensures
            v == old(self).r as i64,
            *final(self) == *old(self),
    {
        self.r as i64
    }

    pub fn get_g(&mut self) -> (v: i64)
        ensures
            v == old(self).g as i64,
            *final(self) == *old(self),
    {
        self.g as i64
    }

    pub fn get_b(&mut self) -> (v: i64)
        ensures
            v == old(self).b as i64,
            *final(self) == *old(self),
    {
        self.b as i64
    }

    pub fn get_a(&mut self) -> (v: i64)
        ensures
            v == old(self).a as i64,
            *final(self) == *old(self),
    {
        self.a as i64
    }

    /// Sets the red channel to the low byte of `value`.
    pub fn set_r(&mut self, value: i64)
        ensures
            *final(self) == (ElemColor { r: value as u8, ..*old(self) }),
    {
        self.r = value as u8;
    }

    /// Sets the green channel to the low byte of `value`.
    pub fn set_g(&mut self, value: i64)
        ensures
            *final(self) == (ElemColor { g: value as u8, ..*old(self) }),
    {
        self.g = value as u8;
    }

    /// Sets the blue channel to the low byte of `value`.
    pub fn set_b(&mut self, value: i64)
        ensures
            *final(self) == (ElemColor { b: value as u8, ..*old(self) }),
    {
        self.b = value as u8;
    }

    /// Sets the alpha channel to the low byte of `value`.
    pub fn set_a(&mut self, value: i64)
        ensures
            *final(self) == (ElemColor { a: value as u8, ..*old(self) }),
    {
        self.a = value as u8;
    }
}

/// The text of one entry of a layer's instance listing: the entry's
/// 1-based number and the instance's index in the object stack.
pub open spec fn instance_entry_text(number: nat, instance: u32) -> Seq<char> {
    "\n\n\t#"@ + decimal(number) + " - "@ + decimal(instance as nat)
}

/// The listing of the first `n` instances of a layer.
pub open spec fn instances_text(instances: Seq<u32>, n: nat) -> Seq<char>
    decreases n,
{
    if n == 0 {
        Seq::empty()
    } else {
        instances_text(instances, (n - 1) as nat) + instance_entry_text(n, instances[n - 1])
    }
}

/// A scene layer: its name and the object-stack indices of the instances
/// drawn in it, in drawing order.
pub struct Layer {
    pub name: String,
    pub instances: Vec<u32>,
}

impl Clone for Layer {
    fn clone(&self) -> (r: Self)
        ensures
            r.name@ == self.name@,
            r.instances@ == self.instances@,
    {
        let instances = self.instances.clone();
        assert(instances@ =~= self.instances@);
        Layer { name: self.name.clone(), instances }
    }
}

impl Layer {
    pub fn get_name(&mut self) -> (r: String)
        ensures
            r@ == old(self).name@,
            final(self).name@ == old(self).name@,
            final(self).instances@ == old(self).instances@,
    {
        self.name.clone()
    }

    pub fn get_instances(&mut self) -> (r: Vec<u32>)
        ensures
            r@ == old(self).instances@,
            final(self).name@ == old(self).name@,
            final(self).instances@ == old(self).instances@,
    {
        self.instances.clone()
    }

    /// Describes the layer: its name, then one numbered entry per instance.
    pub fn to_string(&mut self) -> (r: String)
        requires
            old(self).instances.len() < i32::MAX,
        ensures
            r@ == "Name: "@ + old(self).name@ + "\nInstances:"@ + instances_text(
                old(self).instances@,
                old(self).instances.len() as nat,
            ),
            final(self).name@ == old(self).name@,
            final(self).instances@ == old(self).instances@,
    {
        let mut listing = String::new();
        let mut i: usize = 0;
        while i < self.instances.len()
            invariant
                i <= self.instances.len(),
                listing@ == instances_text(self.instances@, i as nat),
            decreases self.instances.len() - i,
        {
            listing.append("\n\n\t#");
            push_decimal(&mut listing, (i + 1) as u64);
            listing.append(" - ");
            push_decimal(&mut listing, self.instances[i] as u64);
            i = i + 1;
        }
        let mut r = String::from_str("Name: ");
        r.append(self.name.as_str());
        r.append("\nInstances:");
        r.append(listing.as_str());
        r
    }
}

/// The scene's camera; position and zoom are `f32` bits.
#[derive(Clone, Copy, Debug, PartialEq, Eq)]
pub struct Camera {
    pub position: ElemPoint,
    pub zoom: u32,
    pub color: ElemColor,
}

impl Camera {
    pub fn get_position(&mut self) -> (r: ElemPoint)
        ensures
            r == old(self).position,
            *final(self) == *old(self),
    {
        self.position
    }

    pub fn get_color(&mut self) -> (r: ElemColor)
        ensures
            r == old(self).color,
            *final(self) == *old(self),
    {
        self.color
    }

    pub fn set_position(&mut self, value: ElemPoint)
        ensures
            *final(self) == (Camera { position: value, ..*old(self) }),
    {
        self.position = value;
    }

    pub fn set_color(&mut self, value: ElemColor)
        ensures
            *final(self) == (Camera { color: value, ..*old(self) }),
    {
        self.color = value;
    }
}

/// The instance lists of a sequence of layers.
pub open spec fn layer_instances(layers: Seq<Layer>) -> Seq<Seq<u32>> {
    Seq::new(layers.len(), |i: int| layers[i].instances@)
}

/// The names of a sequence of layers.
pub open spec fn layer_names(layers: Seq<Layer>) -> Seq<Seq<char>> {
    Seq::new(layers.len(), |i: int| layers[i].name@)
}

/// `s` with the element at `p` replaced by the last one and the last
/// position dropped (what `Vec::swap_remove` does).
pub open spec fn swap_removed<A>(s: Seq<A>, p: int) -> Seq<A> {
    s.update(p, s.last()).drop_last()
}

/// `p` is the first position of `s` that holds the number `idx`.
pub open spec fn is_first_position_of(s: Seq<u32>, idx: i64, p: int) -> bool {
    &&& 0 <= p < s.len()
    &&& s[p] as int == idx as int
    &&& forall|q: int| 0 <= q < p ==> #[trigger] s[q] as int != idx as int
}

/// Layer `l` is the first of the first `bound` lists that holds `v`.
pub open spec fn is_first_layer_holding(insts: Seq<Seq<u32>>, bound: int, v: u32, l: int) -> bool {
    &&& 0 <= l < bound
    &&& insts[l].contains(v)
    &&& forall|m: int| 0 <= m < l ==> !(#[trigger] insts[m]).contains(v)
}

/// Layer `l` is the first of the first `bound` lists that holds an
/// instance numbered `idx`.
pub open spec fn is_first_layer_with(insts: Seq<Seq<u32>>, bound: int, idx: i64, l: int) -> bool {
    &&& 0 <= l < bound
    &&& exists|p: int| 0 <= p < insts[l].len() && #[trigger] insts[l][p] as int == idx as int
    &&& forall|m: int, p: int|
        0 <= m < l && 0 <= p < insts[m].len() ==> #[trigger] insts[m][p] as int != idx as int
}

/// No object-stack index is listed twice in the first `n` layers (the
/// layers in use), in one layer or across layers.
pub open spec fn instances_unique(insts: Seq<Seq<u32>>, n: int) -> bool {
    forall|l1: int, p1: int, l2: int, p2: int|
        0 <= l1 < n && 0 <= p1 < insts[l1].len() && 0 <= l2 < n && 0 <= p2
            < insts[l2].len() && (l1 != l2 || p1 != p2) ==> #[trigger] insts[l1][p1]
            != #[trigger] insts[l2][p2]
}

fn vec_contains(v: &Vec<u32>, x: u32) -> (r: bool)
    ensures
        r == v@.contains(x),
{
    let mut i: usize = 0;
    while i < v.len()
        invariant
            i <= v.len(),
            forall|q: int| 0 <= q < i ==> v@[q] != x,
        decreases v.len() - i,
    {
        if v[i] == x {
            return true;
        }
        i = i + 1;
    }
    false
}

fn first_position(v: &Vec<u32>, idx: i64) -> (r: Option<usize>)
    ensures
        match r {
            Some(p) => is_first_position_of(v@, idx, p as int),
            None => forall|p: int| 0 <= p < v@.len() ==> #[trigger] v@[p] as int != idx as int,
        },
{
    let mut i: usize = 0;
    while i < v.len()
        invariant
            i <= v.len(),
            forall|q: int| 0 <= q < i ==> #[trigger] v@[q] as int != idx as int,
        decreases v.len() - i,
    {
        if v[i] as i64 == idx {
            return Some(i);
        }
        i = i + 1;
    }
    None
}

/// The properties of a scene: its camera, its layers (of which the first
/// `layers_len` are in use) and the bookkeeping of the object stack, whose
/// first `objects_len` entries are the scene's configured instances and
/// whose next `runtimes_len` entries were added while the game ran.
/// `runtime_vacants` lists runtime entries that are in no layer and can be
/// reused.
#[derive(Clone)]
pub struct Scene {
    pub camera: Camera,
    pub layers: Vec<Layer>,
    pub runtime_vacants: Vec<u32>,
    pub objects_len: usize,
    pub runtimes_len: usize,
    pub layers_len: usize,
}

impl Scene {
    /// The counters are consistent with the vectors they describe.
    pub open spec fn wf(&self) -> bool {
        &&& self.layers_len <= self.layers.len()
        &&& self.objects_len + self.runtimes_len <= usize::MAX
    }

    /// The instance lists of all layers, in use or not.
    pub open spec fn instances(&self) -> Seq<Seq<u32>> {
        layer_instances(self.layers@)
    }

    /// The length of the object stack the scene accounts for.
    pub open spec fn stack_len(&self) -> int {
        self.objects_len + self.runtimes_len
    }

    /// Whether `add_instance(idx, layer_idx)` accepts: the layer is in
    /// use, no layer in use lists the instance yet, and the instance is on
    /// the object stack.
    pub open spec fn can_add_instance(&self, idx: i64, layer_idx: i64) -> bool {
        &&& layer_idx < self.layers_len as i64
        &&& layer_idx >= 0
        &&& forall|l: int| 0 <= l < self.layers_len ==> !(#[trigger] self.instances()[l]).contains(idx as u32)
        &&& (idx as usize) < self.objects_len + self.runtimes_len
    }

    /// Whether `remove_instance(idx)` finds the instance: the first layer
    /// in use that lists `idx as u32` has an entry equal to `idx`.
    pub open spec fn can_remove_instance(&self, idx: i64) -> bool {
        exists|l: int, p: int|
            is_first_layer_holding(self.instances(), self.layers_len as int, idx as u32, l)
                && #[trigger] is_first_position_of(self.instances()[l], idx, p)
    }

    pub fn get_objects_len(&mut self) -> (r: i64)
        ensures
            r == old(self).objects_len as i64,
            *final(self) == *old(self),
    {
        self.objects_len as i64
    }

    pub fn get_runtimes_len(&mut self) -> (r: i64)
        ensures
            r == old(self).runtimes_len as i64,
            *final(self) == *old(self),
    {
        self.runtimes_len as i64
    }

    pub fn get_runtime_vacants(&mut self) -> (r: Vec<u32>)
        ensures
            r@ == old(self).runtime_vacants@,
            *final(self) == *old(self),
    {
        self.runtime_vacants.clone()
    }

    pub fn get_camera(&mut self) -> (r: Camera)
        ensures
            r == old(self).camera,
            *final(self) == *old(self),
    {
        self.camera
    }

    pub fn set_camera(&mut self, value: Camera)
        ensures
            final(self).camera == value,
            final(self).layers@ == old(self).layers@,
            final(self).runtime_vacants@ == old(self).runtime_vacants@,
            final(self).objects_len == old(self).objects_len,
            final(self).runtimes_len == old(self).runtimes_len,
            final(self).layers_len == old(self).layers_len,
    {
        self.camera = value;
    }

    /// Removes the instance `idx` from the first layer in use that lists
    /// it, and marks a runtime instance as vacant. Returns whether an
    /// instance was removed.
    pub fn remove_instance(&mut self, idx: i64) -> (r: bool)
        requires
            old(self).wf(),
        ensures
            r == old(self).can_remove_instance(idx),
            forall|l: int, p: int|
                is_first_layer_holding(old(self).instances(), old(self).layers_len as int, idx as u32, l)
                    && #[trigger] is_first_position_of(old(self).instances()[l], idx, p)
                    ==> final(self).instances() == old(self).instances().update(
                    l,
                    swap_removed(old(self).instances()[l], p),
                ),
            r ==> final(self).runtime_vacants@ == (if old(self).objects_len <= (idx as usize)
                && (idx as usize) < old(self).stack_len() {
                old(self).runtime_vacants@.push(idx as u32)
            } else {
                old(self).runtime_vacants@
            }),
            !r ==> final(self).instances() == old(self).instances(),
            !r ==> final(self).runtime_vacants@ == old(self).runtime_vacants@,
            layer_names(final(self).layers@) == layer_names(old(self).layers@),
            final(self).layers.len() == old(self).layers.len(),
            final(self).camera == old(self).camera,
            final(self).objects_len == old(self).objects_len,
            final(self).runtimes_len == old(self).runtimes_len,
            final(self).layers_len == old(self).layers_len,
    {
        let target = idx as u32;
        let ghost insts = self.instances();
        let mut l: usize = 0;
        while l < self.layers_len
            invariant
                *self == *old(self),
                insts == self.instances(),
                self.wf(),
                target == idx as u32,
                l <= self.layers_len,
                forall|m: int| 0 <= m < l ==> !(#[trigger] insts[m]).contains(target),
            decreases self.layers_len - l,
        {
            if vec_contains(&self.layers[l].instances, target) {
                assert(insts[l as int] == self.layers@[l as int].instances@);
                assert(is_first_layer_holding(insts, self.layers_len as int, target, l as int));
                match first_position(&self.layers[l].instances, idx) {
                    Some(p) => {
                        let ghost old_layers = self.layers@;
                        self.layers[l].instances.swap_remove(p);
                        assert(self.layers@ == old_layers.update(l as int, self.layers@[l as int]));
                        assert(self.instances() =~= insts.update(l as int, swap_removed(insts[l as int], p as int)));
                        assert(layer_names(self.layers@) =~= layer_names(old_layers));
                        if idx as usize >= self.objects_len && (idx as usize) < self.objects_len
                            + self.runtimes_len {
                            self.runtime_vacants.push(idx as u32);
                        }
                        return true;
                    },
                    None => {
                        assert forall|l2: int, p2: int|
                            is_first_layer_holding(insts, self.layers_len as int, idx as u32, l2)
                                && #[trigger] is_first_position_of(insts[l2], idx, p2) implies false by {
                            assert(l2 == l);
                        }
                        return false;
                    },
                }
            }
            l = l + 1;
        }
        false
    }

    /// Adds the instance `idx` to the layer `layer_idx` when
    /// `can_add_instance` holds, and takes it off the vacant list. Returns
    /// whether the instance was added.
    pub fn add_instance(&mut self, idx: i64, layer_idx: i64) -> (r: bool)
        requires
            old(self).wf(),
        ensures
            r == old(self).can_add_instance(idx, layer_idx),
            r ==> final(self).instances() == old(self).instances().update(
                layer_idx as int,
                old(self).instances()[layer_idx as int].push(idx as u32),
            ),
            r ==> forall|p: int|
                #[trigger] is_first_position_of(old(self).runtime_vacants@, idx, p)
                    ==> final(self).runtime_vacants@ == swap_removed(old(self).runtime_vacants@, p),
            r && (forall|p: int|
                0 <= p < old(self).runtime_vacants@.len() ==> #[trigger] old(self).runtime_vacants@[p] as int != idx as int) ==> final(self).runtime_vacants@
                == old(self).runtime_vacants@,
            !r ==> final(self).instances() == old(self).instances(),
            !r ==> final(self).runtime_vacants@ == old(self).runtime_vacants@,
            layer_names(final(self).layers@) == layer_names(old(self).layers@),
            final(self).layers.len() == old(self).layers.len(),
            final(self).camera == old(self).camera,
            final(self).objects_len == old(self).objects_len,
            final(self).runtimes_len == old(self).runtimes_len,
            final(self).layers_len == old(self).layers_len,
    {
        if !(layer_idx < (self.layers_len as i64) && layer_idx >= 0) {
            return false;
        }
        let target = idx as u32;
        let ghost insts = self.instances();
        let mut l: usize = 0;
        while l < self.layers_len
            invariant
                *self == *old(self),
                self.wf(),
                insts == self.instances(),
                target == idx as u32,
                l <= self.layers_len,
                forall|m: int| 0 <= m < l ==> !(#[trigger] insts[m]).contains(target),
            decreases self.layers_len - l,
        {
            if vec_contains(&self.layers[l].instances, target) {
                assert(insts[l as int] == self.layers@[l as int].instances@);
                return false;
            }
            l = l + 1;
        }
        if !((idx as usize) < self.objects_len + self.runtimes_len) {
            return false;
        }
        let li = layer_idx as usize;
        let ghost old_layers = self.layers@;
        self.layers[li].instances.push(target);
        assert(self.layers@ == old_layers.update(li as int, self.layers@[li as int]));
        assert(self.instances() =~= insts.update(li as int, insts[li as int].push(target)));
        assert(layer_names(self.layers@) =~= layer_names(old_layers));
        match first_position(&self.runtime_vacants, idx) {
            Some(p) => {
                self.runtime_vacants.swap_remove(p);
            },
            None => {},
        }
        true
    }

    /// Whether `idx` names an entry of the object stack.
    pub fn object_is_valid(&self, idx: i64) -> (r: bool)
        requires
            self.wf(),
        ensures
            r == (idx < (self.objects_len + self.runtimes_len) as i64 && idx > -1),
    {
        idx < (self.objects_len + self.runtimes_len) as i64 && idx > -1
    }

    /// The in-use layer that draws the instance `idx`, or -1 when none does.
    pub fn object_is_active(&self, idx: i64) -> (r: i64)
        requires
            self.wf(),
        ensures
            (forall|l: int| !#[trigger] is_first_layer_with(self.instances(), self.layers_len as int, idx, l))
                ==> r == -1,
            forall|l: int|
                #[trigger] is_first_layer_with(self.instances(), self.layers_len as int, idx, l)
                    ==> r == l as i64,
    {
        let ghost insts = self.instances();
        let mut l: usize = 0;
        while l < self.layers_len
            invariant
                insts == self.instances(),
                self.wf(),
                l <= self.layers_len,
                forall|m: int, p: int|
                    0 <= m < l && 0 <= p < insts[m].len() ==> #[trigger] insts[m][p] as int != idx as int,
            decreases self.layers_len - l,
        {
            assert(insts[l as int] == self.layers@[l as int].instances@);
            match first_position(&self.layers[l].instances, idx) {
                Some(p) => {
                    assert(insts[l as int][p as int] as int == idx as int);
                    assert(is_first_layer_with(insts, self.layers_len as int, idx, l as int));
                    assert forall|l2: int|
                        #[trigger] is_first_layer_with(insts, self.layers_len as int, idx, l2)
                            implies l2 == l by {
                        if l2 < l {
                        } else if l2 > l {
                            assert(insts[l as int][p as int] as int == idx as int);
                        }
                    }
                    return l as i64;
                },
                None => {},
            }
            l = l + 1;
        }
        -1
    }

    /// Copies of the layers in use.
    pub fn get_layers(&mut self) -> (r: Vec<Layer>)
        requires
            old(self).wf(),
        ensures
            r.len() == old(self).layers_len,
            forall|i: int|
                0 <= i < r.len() ==> (#[trigger] r@[i]).name@ == old(self).layers@[i].name@
                    && r@[i].instances@ == old(self).layers@[i].instances@,
            *final(self) == *old(self),
    {
        let mut r: Vec<Layer> = Vec::new();
        let mut i: usize = 0;
        while i < self.layers_len
            invariant
                *self == *old(self),
                self.wf(),
                i <= self.layers_len,
                r.len() == i,
                forall|j: int|
                    0 <= j < i ==> (#[trigger] r@[j]).name@ == self.layers@[j].name@
                        && r@[j].instances@ == self.layers@[j].instances@,
            decreases self.layers_len - i,
        {
            r.push(self.layers[i].clone());
            i = i + 1;
        }
        r
    }

    /// Where `add_object_to_stack` puts a new runtime object, and the
    /// stack index it gives the object: the smallest vacant runtime entry
    /// if there is one; otherwise the first stack entry past the ones the
    /// scene accounts for, reused when the stack already holds it
    /// (`stack_len` is the stack's length) and pushed otherwise.
    pub fn place_runtime_object(&self, stack_len: usize) -> (r: ObjectSlot)
        requires
            self.wf(),
        ensures
            self.runtime_vacants@.len() > 0 ==> (r matches ObjectSlot::Vacant { slot, idx_in_stack }
                && is_min_of(self.runtime_vacants@, slot) && idx_in_stack == self.stack_len() as u32),
            self.runtime_vacants@.len() == 0 && stack_len > self.stack_len() ==> r == (ObjectSlot::Unused {
                slot: (self.objects_len + self.runtimes_len) as usize,
                idx_in_stack: self.stack_len() as u32,
            }),
            self.runtime_vacants@.len() == 0 && stack_len <= self.stack_len() ==> r == (ObjectSlot::New {
                idx_in_stack: self.stack_len() as u32,
            }),
    {
        let next = self.objects_len + self.runtimes_len;
        if self.runtime_vacants.len() > 0 {
            let mut min = self.runtime_vacants[0];
            assert(self.runtime_vacants@[0] == min);
            let mut i: usize = 1;
            while i < self.runtime_vacants.len()
                invariant
                    1 <= i <= self.runtime_vacants.len(),
                    exists|w: int| 0 <= w < i && #[trigger] self.runtime_vacants@[w] == min,
                    forall|q: int| 0 <= q < i ==> min <= #[trigger] self.runtime_vacants@[q],
                decreases self.runtime_vacants.len() - i,
            {
                if self.runtime_vacants[i] < min {
                    min = self.runtime_vacants[i];
                    assert(self.runtime_vacants@[i as int] == min);
                }
                i = i + 1;
            }
            return ObjectSlot::Vacant { slot: min, idx_in_stack: next as u32 };
        }
        if stack_len > next {
            ObjectSlot::Unused { slot: next, idx_in_stack: next as u32 }
        } else {
            ObjectSlot::New { idx_in_stack: next as u32 }
        }
    }

    /// Accounts for one more runtime object at the end of the stack, which
    /// starts out vacant; returns its stack index.
    pub fn register_runtime_object(&mut self) -> (r: u32)
        requires
            old(self).wf(),
            old(self).stack_len() < usize::MAX,
        ensures
            r == old(self).stack_len() as u32,
            final(self).runtimes_len == old(self).runtimes_len + 1,
            final(self).runtime_vacants@ == old(self).runtime_vacants@.push(r),
            final(self).layers@ == old(self).layers@,
            final(self).camera == old(self).camera,
            final(self).objects_len == old(self).objects_len,
            final(self).layers_len == old(self).layers_len,
            final(self).wf(),
    {
        let index = (self.objects_len + self.runtimes_len) as u32;
        self.runtimes_len = self.runtimes_len + 1;
        self.runtime_vacants.push(index);
        index
    }
}

/// `v` is the smallest number in `s`.
pub open spec fn is_min_of(s: Seq<u32>, v: u32) -> bool {
    &&& s.contains(v)
    &&& forall|q: int| 0 <= q < s.len() ==> v <= #[trigger] s[q]
}

/// Where a new runtime object goes on the object stack, and the stack
/// index the object is created with.
#[derive(Clone, Copy, Debug, PartialEq, Eq)]
pub enum ObjectSlot {
    /// Recycle the vacant runtime entry `slot`.
    Vacant { slot: u32, idx_in_stack: u32 },
    /// Recycle the stack entry `slot`, which no scene accounts for yet.
    Unused { slot: usize, idx_in_stack: u32 },
    /// Push a new entry onto the stack.
    New { idx_in_stack: u32 },
}

/// What a scene's configuration says about the scene's properties: the
/// layer names, how many object instances it places, and the camera
/// (position and zoom as `f32` bits, colour as a hex code, and alpha).
pub struct SceneConfig {
    pub layers: Vec<String>,
    pub object_instances: usize,
    pub camera_x: u32,
    pub camera_y: u32,
    pub camera_zoom: u32,
    pub camera_color: String,
    pub camera_alpha: u8,
}

/// The camera a scene configuration describes.
pub open spec fn config_camera(config: &SceneConfig) -> Camera {
    let rgba = hex_color_rgba(config.camera_color@);
    Camera {
        position: ElemPoint { x: config.camera_x, y: config.camera_y },
        zoom: config.camera_zoom,
        color: ElemColor { r: rgba[0], g: rgba[1], b: rgba[2], a: config.camera_alpha },
    }
}

fn camera_from_config(config: &SceneConfig) -> (r: Camera)
    requires
        is_hex_color(config.camera_color@),
    ensures
        r == config_camera(config),
{
    let color = hex_color_to_rgba(config.camera_color.as_str());
    Camera {
        position: ElemPoint { x: config.camera_x, y: config.camera_y },
        zoom: config.camera_zoom,
        color: ElemColor { r: color[0], g: color[1], b: color[2], a: config.camera_alpha },
    }
}

impl Scene {
    /// The scene a configuration describes: one empty layer per name, all
    /// in use, no runtime objects.
    pub fn new(config: &SceneConfig) -> (r: Scene)
        requires
            is_hex_color(config.camera_color@),
        ensures
            r.wf(),
            r.layers.len() == config.layers.len(),
            forall|i: int|
                0 <= i < r.layers.len() ==> (#[trigger] r.layers@[i]).name@ == config.layers@[i]@
                    && r.layers@[i].instances@.len() == 0,
            r.layers_len == config.layers.len(),
            r.objects_len == config.object_instances,
            r.runtimes_len == 0,
            r.runtime_vacants@.len() == 0,
            r.camera == config_camera(config),
    {
        let mut layers: Vec<Layer> = Vec::new();
        let mut i: usize = 0;
        while i < config.layers.len()
            invariant
                i <= config.layers.len(),
                layers.len() == i,
                forall|j: int|
                    0 <= j < i ==> (#[trigger] layers@[j]).name@ == config.layers@[j]@
                        && layers@[j].instances@.len() == 0,
            decreases config.layers.len() - i,
        {
            layers.push(Layer { name: config.layers[i].clone(), instances: Vec::new() });
            i = i + 1;
        }
        let layers_len = layers.len();
        Scene {
            objects_len: config.object_instances,
            layers_len,
            runtimes_len: 0,
            runtime_vacants: Vec::new(),
            camera: camera_from_config(config),
            layers,
        }
    }

    /// Reuses the scene for the configuration `config`: the first layers
    /// are renamed and emptied, missing ones are appended, the layers past
    /// the configured ones are kept but no longer in use.
    pub fn recycle(&mut self, config: &SceneConfig)
        requires
            is_hex_color(config.camera_color@),
        ensures
            final(self).wf(),
            final(self).layers.len() == (if config.layers.len() > old(self).layers.len() {
                config.layers.len()
            } else {
                old(self).layers.len()
            }),
            forall|i: int|
                0 <= i < config.layers.len() ==> (#[trigger] final(self).layers@[i]).name@
                    == config.layers@[i]@ && final(self).layers@[i].instances@.len() == 0,
            forall|i: int|
                config.layers.len() <= i < old(self).layers.len() ==> (#[trigger] final(self).layers@[i]).name@ == old(self).layers@[i].name@ && final(self).layers@[i].instances@
                    == old(self).layers@[i].instances@,
            final(self).layers_len == config.layers.len(),
            final(self).objects_len == config.object_instances,
            final(self).runtimes_len == 0,
            final(self).runtime_vacants@.len() == 0,
            final(self).camera == config_camera(config),
    {
        let ghost old_layers = self.layers@;
        let mut i: usize = 0;
        while i < config.layers.len()
            invariant
                i <= config.layers.len(),
                self.layers.len() == (if i > old_layers.len() {
                    i as int
                } else {
                    old_layers.len() as int
                }),
                forall|j: int|
                    0 <= j < i ==> (#[trigger] self.layers@[j]).name@ == config.layers@[j]@
                        && self.layers@[j].instances@.len() == 0,
                forall|j: int|
                    i <= j < old_layers.len() ==> (#[trigger] self.layers@[j]).name@
                        == old_layers[j].name@ && self.layers@[j].instances@ == old_layers[j].instances@,
            decreases config.layers.len() - i,
        {
            if i < self.layers.len() {
                self.layers[i].name = config.layers[i].clone();
                self.layers[i].instances.clear();
            } else {
                self.layers.push(Layer { name: config.layers[i].clone(), instances: Vec::new() });
            }
            i = i + 1;
        }
        self.layers_len = i;
        self.runtimes_len = 0;
        self.runtime_vacants.clear();
        self.objects_len = config.object_instances;
        self.camera = camera_from_config(config);
    }
}

/// Adding an instance keeps every object-stack index listed at most once.
pub proof fn lemma_add_instance_keeps_instances_unique(scene: Scene, idx: i64, layer_idx: i64)
    requires
        scene.wf(),
        instances_unique(scene.instances(), scene.layers_len as int),
        scene.can_add_instance(idx, layer_idx),
    ensures
        instances_unique(
            scene.instances().update(
                layer_idx as int,
                scene.instances()[layer_idx as int].push(idx as u32),
            ),
            scene.layers_len as int,
        ),
{
    let ins = scene.instances();
    let li = layer_idx as int;
    let x = idx as u32;
    let ins2 = ins.update(li, ins[li].push(x));
    assert forall|l1: int, p1: int, l2: int, p2: int|
        0 <= l1 < scene.layers_len && 0 <= p1 < ins2[l1].len() && 0 <= l2 < scene.layers_len && 0 <= p2
            < ins2[l2].len() && (l1 != l2 || p1 != p2) implies #[trigger] ins2[l1][p1]
        != #[trigger] ins2[l2][p2] by {
        let last = ins[li].len() as int;
        if l1 == li && p1 == last {
            assert(!ins[l2].contains(x));
            if l2 != li || p2 != last {
                assert(ins2[l2][p2] == ins[l2][p2]);
            }
        } else if l2 == li && p2 == last {
            assert(!ins[l1].contains(x));
            assert(ins2[l1][p1] == ins[l1][p1]);
        } else {
            assert(ins2[l1][p1] == ins[l1][p1]);
            assert(ins2[l2][p2] == ins[l2][p2]);
        }
    }
}

/// Removing an instance keeps every object-stack index listed at most once.
pub proof fn lemma_remove_instance_keeps_instances_unique(scene: Scene, l: int, p: int)
    requires
        scene.wf(),
        instances_unique(scene.instances(), scene.layers_len as int),
        0 <= l < scene.instances().len(),
        0 <= p < scene.instances()[l].len(),
    ensures
        instances_unique(
            scene.instances().update(l, swap_removed(scene.instances()[l], p)),
            scene.layers_len as int,
        ),
{
    let ins = scene.instances();
    let s = ins[l];
    let s2 = swap_removed(s, p);
    let ins2 = ins.update(l, s2);
    let last = s.len() - 1;
    // each entry of the new list comes from a distinct entry of the old one
    assert forall|l1: int, p1: int, l2: int, p2: int|
        0 <= l1 < scene.layers_len && 0 <= p1 < ins2[l1].len() && 0 <= l2 < scene.layers_len && 0 <= p2
            < ins2[l2].len() && (l1 != l2 || p1 != p2) implies #[trigger] ins2[l1][p1]
        != #[trigger] ins2[l2][p2] by {
        let q1 = if l1 == l && p1 == p { last } else { p1 };
        let q2 = if l2 == l && p2 == p { last } else { p2 };
        assert(ins2[l1][p1] == ins[l1][q1]);
        assert(ins2[l2][p2] == ins[l2][q2]);
    }
}

/// Removing an instance right after adding it finds it in the layer it
/// was added to, as that layer's last entry, and gives back the layers as
/// they were before the addition. (The instance must be a valid `u32`:
/// a larger or negative number is stored truncated, and the removal,
/// which looks for the number itself, does not find it.)
pub proof fn lemma_remove_undoes_add(scene: Scene, idx: i64, layer_idx: i64)
    requires
        scene.wf(),
        scene.can_add_instance(idx, layer_idx),
        0 <= idx <= u32::MAX,
    ensures
        ({
            let ins = scene.instances();
            let li = layer_idx as int;
            let added = ins.update(li, ins[li].push(idx as u32));
            &&& is_first_layer_holding(added, scene.layers_len as int, idx as u32, li)
            &&& is_first_position_of(added[li], idx, ins[li].len() as int)
            &&& added.update(li, swap_removed(added[li], ins[li].len() as int)) == ins
        }),
{
    let ins = scene.instances();
    let li = layer_idx as int;
    let x = idx as u32;
    let added = ins.update(li, ins[li].push(x));
    assert(added[li][ins[li].len() as int] == x);
    assert(added[li].contains(x));
    assert forall|m: int| 0 <= m < li implies !(#[trigger] added[m]).contains(x) by {
        assert(added[m] == ins[m]);
        assert(!ins[m].contains(x));
    }
    assert forall|q: int| 0 <= q < ins[li].len() implies #[trigger] added[li][q] as int != idx as int by {
        assert(added[li][q] == ins[li][q]);
        if ins[li][q] as int == idx as int {
            assert(ins[li][q] == x);
            assert(ins[li].contains(x));
        }
    }
    assert(swap_removed(added[li], ins[li].len() as int) =~= ins[li]);
    assert(added.update(li, swap_removed(added[li], ins[li].len() as int)) =~= ins);
}

/// After an instance is added to a layer, that layer is the one
/// `object_is_active` reports for it. (For a valid `u32` instance, as in
/// `lemma_remove_undoes_add`.)
pub proof fn lemma_added_instance_is_active(scene: Scene, idx: i64, layer_idx: i64)
    requires
        scene.wf(),
        scene.can_add_instance(idx, layer_idx),
        0 <= idx <= u32::MAX,
    ensures
        ({
            let ins = scene.instances();
            let li = layer_idx as int;
            is_first_layer_with(ins.update(li, ins[li].push(idx as u32)), scene.layers_len as int, idx, li)
        }),
{
    let ins = scene.instances();
    let li = layer_idx as int;
    let x = idx as u32;
    let added = ins.update(li, ins[li].push(x));
    assert(added[li][ins[li].len() as int] as int == idx as int);
    assert forall|m: int, p: int|
        0 <= m < li && 0 <= p < added[m].len() implies #[trigger] added[m][p] as int != idx as int by {
        assert(added[m] == ins[m]);
        if ins[m][p] as int == idx as int {
            assert(ins[m][p] == x);
            assert(ins[m].contains(x));
        }
    }
}

/// What is needed to create an object: its index in the object stack,
/// its position and scale (`f32` bits), its colour as a hex code and its
/// alpha. A scene's configuration gives it for each placed instance;
/// `add_object_to_stack` gives the position and uses defaults for the rest.
pub struct ObjectInitInfo {
    pub idx_in_stack: u32,
    pub init_x: u32,
    pub init_y: u32,
    pub init_scale_x: u32,
    pub init_scale_y: u32,
    pub init_color: String,
    pub init_alpha: u8,
}

/// The colour an object is created with: the RGB of the hex code and
/// the given alpha.
pub open spec fn init_color(info: &ObjectInitInfo) -> ElemColor {
    let rgba = hex_color_rgba(info.init_color@);
    ElemColor { r: rgba[0], g: rgba[1], b: rgba[2], a: info.init_alpha }
}

fn color_from_info(info: &ObjectInitInfo) -> (r: ElemColor)
    requires
        is_hex_color(info.init_color@),
    ensures
        r == init_color(info),
{
    let color = hex_color_to_rgba(info.init_color.as_str());
    ElemColor { r: color[0], g: color[1], b: color[2], a: info.init_alpha }
}

/// Whether `Object::set_sprites` accepts `value` in place of `current`:
/// both use the same number of members and list the same sprites (by
/// rowid) in the same order.
pub open spec fn same_sprites(current: AssetList<Sprite>, value: AssetList<Sprite>) -> bool {
    &&& current.len == value.len
    &&& forall|q: int|
        0 <= q < current.members@.len() ==> q < value.members@.len() && (#[trigger] value.members@[q]).id
            == current.members@[q].id
}

/// The properties of an object and the API scripts use on them.
#[derive(Clone)]
pub struct Object {
    pub sprites: AssetList<Sprite>,
    pub position: ElemPoint,
    pub scale: ElemPoint,
    pub color: ElemColor,
    pub index_in_stack: u32,
}

impl Object {
    pub fn get_index_in_stack(&mut self) -> (r: i64)
        ensures
            r == old(self).index_in_stack as i64,
            *final(self) == *old(self),
    {
        self.index_in_stack as i64
    }

    pub fn get_position(&mut self) -> (r: ElemPoint)
        ensures
            r == old(self).position,
            *final(self) == *old(self),
    {
        self.position
    }

    pub fn get_scale(&mut self) -> (r: ElemPoint)
        ensures
            r == old(self).scale,
            *final(self) == *old(self),
    {
        self.scale
    }

    pub fn get_color(&mut self) -> (r: ElemColor)
        ensures
            r == old(self).color,
            *final(self) == *old(self),
    {
        self.color
    }

    pub fn get_sprites(&mut self) -> (r: AssetList<Sprite>)
        ensures
            r.members.len() == old(self).sprites.members.len(),
            forall|i: int|
                0 <= i < r.members.len() ==> same_sprite(#[trigger] old(self).sprites.members@[i], r.members@[i]),
            r.cur_asset == old(self).sprites.cur_asset,
            r.len == old(self).sprites.len,
            *final(self) == *old(self),
    {
        let r = self.sprites.clone();
        assert forall|i: int| 0 <= i < r.members.len() implies same_sprite(
            #[trigger] self.sprites.members@[i],
            r.members@[i],
        ) by {
            assert(cloned(self.sprites.members@[i], r.members@[i]));
        }
        r
    }

    pub fn set_position(&mut self, value: ElemPoint)
        ensures
            final(self).position == value,
            final(self).sprites == old(self).sprites,
            final(self).scale == old(self).scale,
            final(self).color == old(self).color,
            final(self).index_in_stack == old(self).index_in_stack,
    {
        self.position = value;
    }

    pub fn set_scale(&mut self, value: ElemPoint)
        ensures
            final(self).scale == value,
            final(self).sprites == old(self).sprites,
            final(self).position == old(self).position,
            final(self).color == old(self).color,
            final(self).index_in_stack == old(self).index_in_stack,
    {
        self.scale = value;
    }

    pub fn set_color(&mut self, value: ElemColor)
        ensures
            final(self).color == value,
            final(self).sprites == old(self).sprites,
            final(self).position == old(self).position,
            final(self).scale == old(self).scale,
            final(self).index_in_stack == old(self).index_in_stack,
    {
        self.color = value;
    }

    /// Replaces the sprite list, but only with a list of the same sprites
    /// (`same_sprites`); any other list is ignored.
    pub fn set_sprites(&mut self, value: AssetList<Sprite>)
        requires
            !(old(self).sprites.len == value.len && value.members.len() < old(self).sprites.members.len()
                && forall|q: int|
                0 <= q < value.members@.len() ==> (#[trigger] value.members@[q]).id
                    == old(self).sprites.members@[q].id),
        ensures
            final(self).sprites == (if same_sprites(old(self).sprites, value) {
                value
            } else {
                old(self).sprites
            }),
            final(self).position == old(self).position,
            final(self).scale == old(self).scale,
            final(self).color == old(self).color,
            final(self).index_in_stack == old(self).index_in_stack,
    {
        if self.sprites.len != value.len {
            return;
        }
        let mut i: usize = 0;
        while i < self.sprites.members.len()
            invariant
                *self == *old(self),
                self.sprites.len == value.len,
                i <= self.sprites.members.len(),
                !(value.members.len() < self.sprites.members.len() && forall|q: int|
                    0 <= q < value.members@.len() ==> (#[trigger] value.members@[q]).id
                        == self.sprites.members@[q].id),
                forall|q: int|
                    0 <= q < i ==> q < value.members@.len() && (#[trigger] value.members@[q]).id
                        == self.sprites.members@[q].id,
            decreases self.sprites.members.len() - i,
        {
            if i >= value.members.len() {
                assert forall|q: int|
                    0 <= q < value.members@.len() implies (#[trigger] value.members@[q]).id
                        == self.sprites.members@[q].id by {}
                assert(false);
            }
            if value.members[i].id != self.sprites.members[i].id {
                return;
            }
            i = i + 1;
        }
        self.sprites = value;
    }

    /// The properties of a new object: one fresh sprite per configured
    /// sprite rowid (truncated to 32 bits), and the position, scale,
    /// colour and stack index of `info`.
    pub fn new(sprite_ids: &Vec<i64>, info: ObjectInitInfo) -> (r: Object)
        requires
            is_hex_color(info.init_color@),
        ensures
            r.sprites.members.len() == sprite_ids.len(),
            forall|i: int|
                0 <= i < sprite_ids.len() ==> (#[trigger] r.sprites.members@[i]).id == sprite_ids@[i] as u32
                    && r.sprites.members@[i].is_fresh(),
            r.sprites.len == sprite_ids.len(),
            r.sprites.cur_asset == 0,
            r.index_in_stack == info.idx_in_stack,
            r.position == (ElemPoint { x: info.init_x, y: info.init_y }),
            r.scale == (ElemPoint { x: info.init_scale_x, y: info.init_scale_y }),
            r.color == init_color(&info),
    {
        let mut sprites_vec: Vec<Sprite> = Vec::new();
        let mut i: usize = 0;
        while i < sprite_ids.len()
            invariant
                i <= sprite_ids.len(),
                sprites_vec.len() == i,
                forall|j: int|
                    0 <= j < i ==> (#[trigger] sprites_vec@[j]).id == sprite_ids@[j] as u32
                        && sprites_vec@[j].is_fresh(),
            decreases sprite_ids.len() - i,
        {
            sprites_vec.push(<Sprite as Asset>::new(sprite_ids[i] as u32));
            i = i + 1;
        }
        let color = color_from_info(&info);
        Object {
            sprites: AssetList::new(sprites_vec),
            index_in_stack: info.idx_in_stack,
            position: ElemPoint { x: info.init_x, y: info.init_y },
            scale: ElemPoint { x: info.init_scale_x, y: info.init_scale_y },
            color,
        }
    }

    /// Reuses the properties for another object: the sprite list is
    /// recycled for the configured sprite rowids, and the position, scale
    /// and colour come from `info`. The stack index is kept.
    pub fn recycle(&mut self, sprite_ids: &Vec<u32>, info: ObjectInitInfo)
        requires
            is_hex_color(info.init_color@),
        ensures
            final(self).sprites.len == sprite_ids.len(),
            final(self).sprites.cur_asset == 0,
            final(self).sprites.members.len() == (if sprite_ids.len() > old(self).sprites.members.len() {
                sprite_ids.len()
            } else {
                old(self).sprites.members.len()
            }),
            forall|i: int|
                0 <= i < sprite_ids.len() ==> (#[trigger] final(self).sprites.members@[i]).id
                    == sprite_ids@[i] && final(self).sprites.members@[i].is_fresh(),
            forall|i: int|
                sprite_ids.len() <= i < old(self).sprites.members.len() ==> #[trigger] final(self).sprites.members@[i]
                    == old(self).sprites.members@[i],
            final(self).position == (ElemPoint { x: info.init_x, y: info.init_y }),
            final(self).scale == (ElemPoint { x: info.init_scale_x, y: info.init_scale_y }),
            final(self).color == init_color(&info),
            final(self).index_in_stack == old(self).index_in_stack,
    {
        self.sprites.recycle(sprite_ids);
        let color = color_from_info(&info);
        self.position = ElemPoint { x: info.init_x, y: info.init_y };
        self.scale = ElemPoint { x: info.init_scale_x, y: info.init_scale_y };
        self.color = color;
    }
}

/// Why the state manager refused to switch scenes.
#[derive(Clone, Copy, Debug, PartialEq, Eq)]
pub enum SceneSwitchError {
    /// The requested rowid is not a scene's.
    NotAScene,
}

impl SceneSwitchError {
    /// The message the script sees.
    pub fn message(&self) -> (r: &'static str)
        ensures
            r@ == "Tried to switch to a scene that doesn't exist."@,
    {
        "Tried to switch to a scene that doesn't exist."
    }
}

/// The element type number of scenes.
pub const SCENE_TYPE: u8 = 2;

/// The element type number of objects.
pub const OBJECT_TYPE: u8 = 1;

/// What the state manager's configuration says about its properties:
/// the initial scene, the canvas size (`f32` bits), the update rate, the
/// version numbers and the clear colour as a hex code.
pub struct GameConfig {
    pub initial_scene: u32,
    pub canvas_width: u32,
    pub canvas_height: u32,
    pub fps: u16,
    pub version: [u8; 4],
    pub clear_color: String,
}

/// The properties of the state manager and the API scripts use on them.
/// The canvas size is `f32` bits.
#[derive(Clone)]
pub struct Game {
    pub cur_scene: u32,
    pub canvas_width: u32,
    pub canvas_height: u32,
    pub version: Vec<u8>,
    pub clear_red: u8,
    pub clear_green: u8,
    pub clear_blue: u8,
    pub fps: u16,
}

impl Game {
    pub fn get_cur_scene(&mut self) -> (r: i64)
        ensures
            r == old(self).cur_scene as i64,
            *final(self) == *old(self),
    {
        self.cur_scene as i64
    }

    pub fn get_version(&mut self) -> (r: Vec<u8>)
        ensures
            r@ == old(self).version@,
            *final(self) == *old(self),
    {
        let r = self.version.clone();
        assert(r@ =~= self.version@);
        r
    }

    pub fn get_clear_red(&mut self) -> (r: i64)
        ensures
            r == old(self).clear_red as i64,
            *final(self) == *old(self),
    {
        self.clear_red as i64
    }

    pub fn get_clear_green(&mut self) -> (r: i64)
        ensures
            r == old(self).clear_green as i64,
            *final(self) == *old(self),
    {
        self.clear_green as i64
    }

    pub fn get_clear_blue(&mut self) -> (r: i64)
        ensures
            r == old(self).clear_blue as i64,
            *final(self) == *old(self),
    {
        self.clear_blue as i64
    }

    pub fn get_fps(&mut self) -> (r: i64)
        ensures
            r == old(self).fps as i64,
            *final(self) == *old(self),
    {
        self.fps as i64
    }

    /// Switches to the scene with rowid `value` (truncated to 32 bits),
    /// given `kind`, the element type of that rowid; anything but a scene
    /// is refused.
    pub fn set_cur_scene(&mut self, value: i64, kind: u8) -> (r: Result<(), SceneSwitchError>)
        ensures
            r is Ok <==> kind == SCENE_TYPE,
            r is Ok ==> *final(self) == (Game { cur_scene: value as u32, ..*old(self) }),
            r is Err ==> r == Err::<(), SceneSwitchError>(SceneSwitchError::NotAScene) && *final(self)
                == *old(self),
    {
        if kind == SCENE_TYPE {
            self.cur_scene = value as u32;
            Ok(())
        } else {
            Err(SceneSwitchError::NotAScene)
        }
    }

    /// Sets the clear colour's red channel to the low byte of `value`.
    pub fn set_clear_red(&mut self, value: i64)
        ensures
            *final(self) == (Game { clear_red: value as u8, ..*old(self) }),
    {
        self.clear_red = value as u8;
    }

    /// Sets the clear colour's green channel to the low byte of `value`.
    pub fn set_clear_green(&mut self, value: i64)
        ensures
            *final(self) == (Game { clear_green: value as u8, ..*old(self) }),
    {
        self.clear_green = value as u8;
    }

    /// Sets the clear colour's blue channel to the low byte of `value`.
    pub fn set_clear_blue(&mut self, value: i64)
        ensures
            *final(self) == (Game { clear_blue: value as u8, ..*old(self) }),
    {
        self.clear_blue = value as u8;
    }

    /// Sets the update rate to the low 16 bits of `value`.
    pub fn set_fps(&mut self, value: i64)
        ensures
            *final(self) == (Game { fps: value as u16, ..*old(self) }),
    {
        self.fps = value as u16;
    }

    /// The state manager's properties as its configuration sets them.
    pub fn new(config: &GameConfig) -> (r: Game)
        requires
            is_hex_color(config.clear_color@),
        ensures
            r.cur_scene == config.initial_scene,
            r.canvas_width == config.canvas_width,
            r.canvas_height == config.canvas_height,
            r.fps == config.fps,
            r.version@ == config.version@,
            r.clear_red == hex_color_rgba(config.clear_color@)[0],
            r.clear_green == hex_color_rgba(config.clear_color@)[1],
            r.clear_blue == hex_color_rgba(config.clear_color@)[2],
    {
        let color = hex_color_to_rgba(config.clear_color.as_str());
        let mut version: Vec<u8> = Vec::new();
        version.push(config.version[0]);
        version.push(config.version[1]);
        version.push(config.version[2]);
        version.push(config.version[3]);
        assert(version@ =~= config.version@);
        Game {
            cur_scene: config.initial_scene,
            canvas_width: config.canvas_width,
            canvas_height: config.canvas_height,
            fps: config.fps,
            version,
            clear_red: color[0],
            clear_green: color[1],
            clear_blue: color[2],
        }
    }
}

} // verus!
