//! The state behind the engine's global script API: the keyboard state
//! table the `key_*` functions read, and the decisions of the element
//! handlers.

use vstd::prelude::*;

use crate::game::TableRow;
use crate::text::{decimal, push_decimal};

pub use crate::element::hex_color_to_rgba;

verus! {

/// The state of one keyboard key.
#[derive(Clone, Copy, Debug, PartialEq, Eq)]
pub struct KeyState {
    pub is_held: bool,
    pub just_pressed: bool,
    pub just_released: bool,
}

/// The state a key takes when it goes down.
pub open spec fn pressed_state() -> KeyState {
    KeyState { is_held: true, just_pressed: true, just_released: false }
}

/// The state a key takes when it goes up.
pub open spec fn released_state() -> KeyState {
    KeyState { is_held: false, just_pressed: false, just_released: true }
}

/// A key's state once the frame it changed in is over.
pub open spec fn settled(s: KeyState) -> KeyState {
    KeyState { is_held: s.is_held, just_pressed: false, just_released: false }
}

/// The state of every key that has gone down or up so far, by key code,
/// and the codes of the keys whose state changed during the current frame
/// (in the order of the changes).
///
/// The table is two parallel vectors (codes and states) with an invariant
/// that no code occurs twice, rather than a map keyed by the code strings:
/// vstd gives a `String`-keyed map no specification of lookups by the
/// key's characters, while a vector of strings is specified by its view,
/// so `lookup` can be stated over the characters of the code.
pub struct KeyStates {
    codes: Vec<String>,
    states: Vec<KeyState>,
    just_changed: Vec<String>,
}

impl KeyStates {
    /// The table's internal consistency: one state per code, no code
    /// twice, every changed key in the table, and every key that reads as
    /// just pressed or just released listed as changed.
    pub closed spec fn wf(&self) -> bool {
        &&& self.codes.len() == self.states.len()
        &&& forall|i: int, j: int|
            0 <= i < self.codes.len() && 0 <= j < self.codes.len() && i != j ==> (#[trigger] self.codes@[i])@
                != (#[trigger] self.codes@[j])@
        &&& forall|c: int| 0 <= c < self.just_changed.len() ==> self.has(#[trigger] self.just_changed@[c]@)
        &&& forall|i: int|
            0 <= i < self.codes.len() && ((#[trigger] self.states@[i]).just_pressed
                || self.states@[i].just_released) ==> self.changed().contains(self.codes@[i]@)
    }

    /// Whether the table holds a state for the key `code`.
    pub closed spec fn has(&self, code: Seq<char>) -> bool {
        exists|i: int| 0 <= i < self.codes.len() && (#[trigger] self.codes@[i])@ == code
    }

    spec fn index_of(&self, code: Seq<char>) -> int {
        choose|i: int| 0 <= i < self.codes.len() && (#[trigger] self.codes@[i])@ == code
    }

    /// The state of the key `code`, if the table has one.
    pub closed spec fn lookup(&self, code: Seq<char>) -> Option<KeyState> {
        if self.has(code) {
            Some(self.states@[self.index_of(code)])
        } else {
            None
        }
    }

    /// The codes of the keys whose state changed during the current frame.
    pub closed spec fn changed(&self) -> Seq<Seq<char>> {
        Seq::new(self.just_changed.len() as nat, |c: int| self.just_changed@[c]@)
    }

    proof fn lemma_index_unique(&self, code: Seq<char>, i: int)
        requires
            self.wf(),
            0 <= i < self.codes.len(),
            self.codes@[i]@ == code,
        ensures
            self.has(code),
            self.index_of(code) == i,
            self.lookup(code) == Some(self.states@[i]),
    {
        assert(self.has(code));
        let j = self.index_of(code);
        assert(self.codes@[j]@ == code);
    }

    /// An empty table.
    pub fn new() -> (r: KeyStates)
        ensures
            r.wf(),
            forall|code: Seq<char>| #[trigger] r.lookup(code) == None::<KeyState>,
            r.changed() == Seq::<Seq<char>>::empty(),
    {
        let r = KeyStates { codes: Vec::new(), states: Vec::new(), just_changed: Vec::new() };
        assert(r.changed() =~= Seq::<Seq<char>>::empty());
        r
    }

    fn find(&self, code: &str) -> (r: Option<usize>)
        requires
            self.wf(),
        ensures
            match r {
                Some(i) => i < self.codes.len() && self.codes@[i as int]@ == code@,
                None => !self.has(code@),
            },
    {
        let key = String::from_str(code);
        let mut i: usize = 0;
        while i < self.codes.len()
            invariant
                self.wf(),
                key@ == code@,
                i <= self.codes.len(),
                forall|j: int| 0 <= j < i ==> (#[trigger] self.codes@[j])@ != code@,
            decreases self.codes.len() - i,
        {
            if self.codes[i] == key {
                return Some(i);
            }
            i = i + 1;
        }
        None
    }

    /// The state of the key `code`, if it has gone down or up so far.
    pub fn get(&self, code: &str) -> (r: Option<KeyState>)
        requires
            self.wf(),
        ensures
            r == self.lookup(code@),
    {
        match self.find(code) {
            Some(i) => {
                proof {
                    self.lemma_index_unique(code@, i as int);
                }
                Some(self.states[i])
            },
            None => None,
        }
    }

    /// Whether the key `code` is held down.
    pub fn key_is_held(&self, code: &str) -> (r: bool)
        requires
            self.wf(),
        ensures
            r == (self.lookup(code@) matches Some(s) && s.is_held),
    {
        match self.get(code) {
            Some(state) => state.is_held,
            None => false,
        }
    }

    /// Whether the key `code` went down during the current frame.
    pub fn key_just_pressed(&self, code: &str) -> (r: bool)
        requires
            self.wf(),
        ensures
            r == (self.lookup(code@) matches Some(s) && s.just_pressed),
    {
        match self.get(code) {
            Some(state) => state.just_pressed,
            None => false,
        }
    }

    /// Whether the key `code` went up during the current frame.
    pub fn key_just_released(&self, code: &str) -> (r: bool)
        requires
            self.wf(),
        ensures
            r == (self.lookup(code@) matches Some(s) && s.just_released),
    {
        match self.get(code) {
            Some(state) => state.just_released,
            None => false,
        }
    }

    fn record(&mut self, code: &str, state: KeyState)
        requires
            old(self).wf(),
            state.just_pressed || state.just_released,
        ensures
            final(self).wf(),
            final(self).lookup(code@) == Some(state),
            forall|other: Seq<char>| other != code@ ==> #[trigger] final(self).lookup(other) == old(self).lookup(other),
            final(self).changed() == old(self).changed().push(code@),
    {
        let ghost old_self = *self;
        let idx = self.find(code);
        match idx {
            Some(i) => {
                self.states.set(i, state);
            },
            None => {
                self.codes.push(String::from_str(code));
                self.states.push(state);
            },
        }
        self.just_changed.push(String::from_str(code));
        let ghost pos: int = match idx {
            Some(i) => i as int,
            None => old_self.codes.len() as int,
        };
        assert(self.changed() =~= old_self.changed().push(code@));
        assert(self.codes@[pos]@ == code@);
        assert forall|i: int, j: int|
            0 <= i < self.codes.len() && 0 <= j < self.codes.len() && i != j implies (#[trigger] self.codes@[i])@
            != (#[trigger] self.codes@[j])@ by {
            if i != pos && j != pos {
                assert(self.codes@[i] == old_self.codes@[i]);
                assert(self.codes@[j] == old_self.codes@[j]);
            } else if idx is None {
                if i == pos {
                    assert(self.codes@[j] == old_self.codes@[j]);
                } else {
                    assert(self.codes@[i] == old_self.codes@[i]);
                }
            }
        }
        assert forall|c: int| 0 <= c < self.just_changed.len() implies self.has(#[trigger] self.just_changed@[c]@) by {
            if c < old_self.just_changed.len() {
                let k = self.just_changed@[c]@;
                assert(old_self.has(k));
                let w = old_self.index_of(k);
                assert(self.codes@[w] == old_self.codes@[w]);
            } else {
                assert(self.codes@[pos]@ == code@);
            }
        }
        assert forall|i: int|
            0 <= i < self.codes.len() && ((#[trigger] self.states@[i]).just_pressed
                || self.states@[i].just_released) implies self.changed().contains(self.codes@[i]@) by {
            if i == pos {
                assert(self.changed()[self.changed().len() - 1] == code@);
            } else {
                assert(self.states@[i] == old_self.states@[i]);
                assert(self.codes@[i] == old_self.codes@[i]);
                let w = choose|w: int| 0 <= w < old_self.changed().len() && old_self.changed()[w] == old_self.codes@[i]@;
                assert(self.changed()[w] == old_self.codes@[i]@);
            }
        }
        assert(self.wf());
        proof {
            self.lemma_index_unique(code@, pos);
        }
        assert forall|other: Seq<char>| other != code@ implies #[trigger] self.lookup(other) == old_self.lookup(other) by {
            if old_self.has(other) {
                let w = old_self.index_of(other);
                assert(self.codes@[w] == old_self.codes@[w]);
                assert(w != pos);
                self.lemma_index_unique(other, w);
                old_self.lemma_index_unique(other, w);
            }
            if self.has(other) {
                let w = self.index_of(other);
                if w != pos {
                    assert(self.codes@[w] == old_self.codes@[w]);
                    old_self.lemma_index_unique(other, w);
                }
            }
        }
    }

    /// What happens when the key `code` goes down: unless the event is a
    /// key repeat, the key reads as held and just pressed, and is listed
    /// as changed during this frame.
    pub fn key_down(&mut self, code: &str, repeat: bool)
        requires
            old(self).wf(),
        ensures
            final(self).wf(),
            repeat ==> forall|k: Seq<char>| #[trigger] final(self).lookup(k) == old(self).lookup(k),
            repeat ==> final(self).changed() == old(self).changed(),
            !repeat ==> final(self).lookup(code@) == Some(pressed_state()),
            !repeat ==> forall|other: Seq<char>|
                other != code@ ==> #[trigger] final(self).lookup(other) == old(self).lookup(other),
            !repeat ==> final(self).changed() == old(self).changed().push(code@),
    {
        if repeat {
            return;
        }
        self.record(code, KeyState { is_held: true, just_pressed: true, just_released: false });
    }

    /// What happens when the key `code` goes up: unless the event is a key
    /// repeat, the key reads as released during this frame and no longer
    /// held, and is listed as changed.
    pub fn key_up(&mut self, code: &str, repeat: bool)
        requires
            old(self).wf(),
        ensures
            final(self).wf(),
            repeat ==> forall|k: Seq<char>| #[trigger] final(self).lookup(k) == old(self).lookup(k),
            repeat ==> final(self).changed() == old(self).changed(),
            !repeat ==> final(self).lookup(code@) == Some(released_state()),
            !repeat ==> forall|other: Seq<char>|
                other != code@ ==> #[trigger] final(self).lookup(other) == old(self).lookup(other),
            !repeat ==> final(self).changed() == old(self).changed().push(code@),
    {
        if repeat {
            return;
        }
        self.record(code, KeyState { is_held: false, just_pressed: false, just_released: true });
    }

    /// Ends the frame: no key reads as just pressed or just released any
    /// more, whether a key is held stays as it was, and the list of
    /// changed keys is emptied.
    pub fn calibrate(&mut self)
        requires
            old(self).wf(),
        ensures
            final(self).wf(),
            forall|k: Seq<char>|
                #[trigger] final(self).lookup(k) == (match old(self).lookup(k) {
                    Some(s) => Some(settled(s)),
                    None => None,
                }),
            final(self).changed() == Seq::<Seq<char>>::empty(),
            forall|k: Seq<char>|
                !old(self).changed().contains(k) ==> #[trigger] final(self).lookup(k) == old(self).lookup(k),
    {
        let ghost old_self = *self;
        assert(old_self.changed().subrange(0, old_self.changed().len() as int) =~= old_self.changed());
        let mut c: usize = 0;
        while c < self.just_changed.len()
            invariant
                old_self.wf(),
                self.codes@ == old_self.codes@,
                self.just_changed@ == old_self.just_changed@,
                self.states.len() == old_self.states.len(),
                c <= self.just_changed.len(),
                forall|i: int|
                    0 <= i < self.states.len() ==> (#[trigger] self.states@[i]).is_held
                        == old_self.states@[i].is_held,
                forall|i: int|
                    0 <= i < self.states.len() ==> ((#[trigger] self.states@[i]) == old_self.states@[i]
                        || self.states@[i] == settled(old_self.states@[i])),
                forall|i: int|
                    0 <= i < self.states.len() && ((#[trigger] self.states@[i]).just_pressed
                        || self.states@[i].just_released) ==> old_self.changed().subrange(c as int, old_self.changed().len() as int).contains(self.codes@[i]@),
            decreases self.just_changed.len() - c,
        {
            let ghost before = self.states@;
            let idx = self.find(self.just_changed[c].as_str());
            assert(old_self.has(self.just_changed@[c as int]@));
            match idx {
                Some(i) => {
                    let mut st = self.states[i];
                    st.just_pressed = false;
                    st.just_released = false;
                    self.states.set(i, st);
                },
                None => {},
            }
            assert forall|i: int|
                0 <= i < self.states.len() && ((#[trigger] self.states@[i]).just_pressed
                    || self.states@[i].just_released) implies old_self.changed().subrange(c + 1, old_self.changed().len() as int).contains(self.codes@[i]@) by {
                let sub = old_self.changed().subrange(c as int, old_self.changed().len() as int);
                let w = choose|w: int| 0 <= w < sub.len() && sub[w] == self.codes@[i]@;
                if w == 0 {
                    assert(self.codes@[i]@ == old_self.just_changed@[c as int]@);
                    assert(i == idx.unwrap());
                } else {
                    assert(old_self.changed().subrange(c + 1, old_self.changed().len() as int)[w - 1] == self.codes@[i]@);
                }
            }
            c = c + 1;
        }
        self.just_changed.clear();
        assert(self.changed() =~= Seq::<Seq<char>>::empty());
        assert forall|i: int| 0 <= i < self.states.len() implies #[trigger] self.states@[i] == settled(old_self.states@[i]) by {
            let s = self.states@[i];
            if s.just_pressed || s.just_released {
                assert(old_self.changed().subrange(c as int, old_self.changed().len() as int).len() == 0);
            }
        }
        assert(self.wf());
        assert forall|k: Seq<char>| #[trigger] self.lookup(k) == (match old_self.lookup(k) {
            Some(s) => Some(settled(s)),
            None => None,
        }) by {
            if old_self.has(k) {
                let w = old_self.index_of(k);
                old_self.lemma_index_unique(k, w);
                self.lemma_index_unique(k, w);
            } else {
                if self.has(k) {
                    let w = self.index_of(k);
                    assert(old_self.codes@[w]@ == k);
                }
            }
        }
        assert forall|k: Seq<char>| !old_self.changed().contains(k) implies #[trigger] self.lookup(k)
            == old_self.lookup(k) by {
            if old_self.has(k) {
                let w = old_self.index_of(k);
                old_self.lemma_index_unique(k, w);
                let st = old_self.states@[w];
                if st.just_pressed || st.just_released {
                    assert(old_self.changed().contains(old_self.codes@[w]@));
                }
                assert(settled(st) == st);
            }
        }
    }
}

/// What kind of properties an element handler holds.
#[derive(Clone, Copy, Debug, PartialEq, Eq)]
pub enum ElementKind {
    StateManager,
    Scene,
    Object,
}

/// Whether a handler is being created or recycled.
#[derive(Clone, Copy, Debug, PartialEq, Eq)]
pub enum HandlerOp {
    Create,
    Recycle,
}

/// Why an element handler could not be created or recycled for a row.
#[derive(Clone, Copy, Debug, PartialEq, Eq)]
pub enum HandlerError {
    /// An object's handler needs the object's init info.
    MissingObjectInfo { op: HandlerOp, rowid: u32 },
    /// The element's type number is not one the engine knows.
    InvalidElement { op: HandlerOp, rowid: u32, type_num: u8 },
    /// The row is an asset's, not an element's.
    AssetAsElement { op: HandlerOp, rowid: u32, type_num: u8 },
    /// The state manager is never recycled.
    StateManagerRecycled,
}

/// The element kind of `row` when a handler is created (`Create`) or
/// recycled (`Recycle`) for it, with or without object init info.
pub open spec fn spec_handler_kind(row: TableRow, op: HandlerOp, has_object_info: bool) -> Result<ElementKind, HandlerError> {
    match row {
        TableRow::Metadata => if op == HandlerOp::Create {
            Ok(ElementKind::StateManager)
        } else {
            Err(HandlerError::StateManagerRecycled)
        },
        TableRow::Element(rowid, type_num) => if type_num == 2 {
            Ok(ElementKind::Scene)
        } else if type_num == 1 {
            if has_object_info {
                Ok(ElementKind::Object)
            } else {
                Err(HandlerError::MissingObjectInfo { op, rowid })
            }
        } else {
            Err(HandlerError::InvalidElement { op, rowid, type_num })
        },
        TableRow::Asset(rowid, type_num) => Err(HandlerError::AssetAsElement { op, rowid, type_num }),
    }
}

/// Which properties a handler holds depends on the row and on whether
/// the object's init info is given, and not on whether the handler is
/// created or recycled, except for the state manager, which is only ever
/// created: a scene row (type 2) gives scene properties, an object row
/// (type 1) gives object properties exactly when the init info is given,
/// and no other element type and no asset row gives any.
pub proof fn lemma_handler_kind_rules(id: u32, type_num: u8, op: HandlerOp, has_object_info: bool)
    ensures
        spec_handler_kind(TableRow::Element(id, 1), op, true) == Ok::<ElementKind, HandlerError>(ElementKind::Object),
        spec_handler_kind(TableRow::Element(id, 1), op, false) is Err,
        spec_handler_kind(TableRow::Element(id, 2), op, has_object_info) == Ok::<ElementKind, HandlerError>(
            ElementKind::Scene,
        ),
        type_num != 1 && type_num != 2 ==> spec_handler_kind(TableRow::Element(id, type_num), op, has_object_info)
            is Err,
        spec_handler_kind(TableRow::Asset(id, type_num), op, has_object_info) is Err,
        spec_handler_kind(TableRow::Metadata, HandlerOp::Create, has_object_info) == Ok::<ElementKind, HandlerError>(
            ElementKind::StateManager,
        ),
        spec_handler_kind(TableRow::Metadata, HandlerOp::Recycle, has_object_info) is Err,
        spec_handler_kind(TableRow::Element(id, type_num), HandlerOp::Create, has_object_info)
            is Ok <==> spec_handler_kind(TableRow::Element(id, type_num), HandlerOp::Recycle, has_object_info) is Ok,
{
}

/// Decides which properties an element handler holds for `row`, or why
/// it cannot have any.
pub fn handler_kind(row: TableRow, op: HandlerOp, has_object_info: bool) -> (r: Result<ElementKind, HandlerError>)
    ensures
        r == spec_handler_kind(row, op, has_object_info),
{
    match row {
        TableRow::Metadata => match op {
            HandlerOp::Create => Ok(ElementKind::StateManager),
            HandlerOp::Recycle => Err(HandlerError::StateManagerRecycled),
        },
        TableRow::Element(rowid, type_num) => {
            if type_num == 2 {
                Ok(ElementKind::Scene)
            } else if type_num == 1 {
                if has_object_info {
                    Ok(ElementKind::Object)
                } else {
                    Err(HandlerError::MissingObjectInfo { op, rowid })
                }
            } else {
                Err(HandlerError::InvalidElement { op, rowid, type_num })
            }
        },
        TableRow::Asset(rowid, type_num) => Err(HandlerError::AssetAsElement { op, rowid, type_num }),
    }
}

/// The verb of an operation in error messages.
pub open spec fn op_verb(op: HandlerOp) -> Seq<char> {
    match op {
        HandlerOp::Create => "create"@,
        HandlerOp::Recycle => "recycle"@,
    }
}

/// The function an error message names for an operation.
pub open spec fn op_function(op: HandlerOp) -> Seq<char> {
    match op {
        HandlerOp::Create => "new"@,
        HandlerOp::Recycle => "recycle"@,
    }
}

/// The message of a handler error; `name` is the name the game data gives
/// the row (an asset's name for `AssetAsElement`, an element's otherwise).
pub open spec fn handler_error_text(e: HandlerError, name: Seq<char>) -> Seq<char> {
    match e {
        HandlerError::MissingObjectInfo { op, rowid } => "Tried to "@ + op_verb(op)
            + " object handler without 'object_info' parameter (name: '"@ + name + "', id: "@
            + decimal(rowid as nat) + ")"@,
        HandlerError::InvalidElement { op, rowid, type_num } => "In-valid element (on ElementHandler::"@
            + op_function(op) + "())(name: '"@ + name + "', id: "@ + decimal(rowid as nat) + ", type: "@
            + decimal(type_num as nat) + ")"@,
        HandlerError::AssetAsElement { op, rowid, type_num } =>
            "Can't define an asset as an element (on ElementHandler::"@ + op_function(op)
            + "())(name: '"@ + name + "', id: "@ + decimal(rowid as nat) + ", type: "@ + decimal(
            type_num as nat,
        ) + ")"@,
        HandlerError::StateManagerRecycled => "Tried to recycle State Manager."@,
    }
}

fn op_verb_str(op: HandlerOp) -> (r: &'static str)
    ensures
        r@ == op_verb(op),
{
    match op {
        HandlerOp::Create => "create",
        HandlerOp::Recycle => "recycle",
    }
}

fn op_function_str(op: HandlerOp) -> (r: &'static str)
    ensures
        r@ == op_function(op),
{
    match op {
        HandlerOp::Create => "new",
        HandlerOp::Recycle => "recycle",
    }
}

impl HandlerError {
    /// Whether the message names the row by its asset name.
    pub fn names_asset(&self) -> (r: bool)
        ensures
            r == (*self is AssetAsElement),
    {
        match self {
            HandlerError::AssetAsElement { .. } => true,
            _ => false,
        }
    }

    /// The message the script sees.
    pub fn message(&self, name: &str) -> (r: String)
        ensures
            r@ == handler_error_text(*self, name@),
    {
        match *self {
            HandlerError::MissingObjectInfo { op, rowid } => {
                let mut r = String::from_str("Tried to ");
                r.append(op_verb_str(op));
                r.append(" object handler without 'object_info' parameter (name: '");
                r.append(name);
                r.append("', id: ");
                push_decimal(&mut r, rowid as u64);
                r.append(")");
                r
            },
            HandlerError::InvalidElement { op, rowid, type_num } => {
                let mut r = String::from_str("In-valid element (on ElementHandler::");
                r.append(op_function_str(op));
                r.append("())(name: '");
                r.append(name);
                r.append("', id: ");
                push_decimal(&mut r, rowid as u64);
                r.append(", type: ");
                push_decimal(&mut r, type_num as u64);
                r.append(")");
                r
            },
            HandlerError::AssetAsElement { op, rowid, type_num } => {
                let mut r = String::from_str("Can't define an asset as an element (on ElementHandler::");
                r.append(op_function_str(op));
                r.append("())(name: '");
                r.append(name);
                r.append("', id: ");
                push_decimal(&mut r, rowid as u64);
                r.append(", type: ");
                push_decimal(&mut r, type_num as u64);
                r.append(")");
                r
            },
            HandlerError::StateManagerRecycled => String::from_str("Tried to recycle State Manager."),
        }
    }
}

/// Why `add_object_to_stack` refused a definition.
#[derive(Clone, Copy, Debug, PartialEq, Eq)]
pub enum ObjectDefinitionError {
    StateManager,
    Asset { rowid: u32, type_num: u8 },
    Scene { rowid: u32 },
}

/// Whether `add_object_to_stack` accepts the definition of `row` for a
/// new object: everything but the state manager, assets and scenes.
pub open spec fn spec_check_object_definition(row: TableRow) -> Result<(), ObjectDefinitionError> {
    match row {
        TableRow::Metadata => Err(ObjectDefinitionError::StateManager),
        TableRow::Asset(rowid, type_num) => Err(ObjectDefinitionError::Asset { rowid, type_num }),
        TableRow::Element(rowid, type_num) => if type_num == 2 {
            Err(ObjectDefinitionError::Scene { rowid })
        } else {
            Ok(())
        },
    }
}

/// `add_object_to_stack` accepts exactly the definitions of elements that
/// are not scenes.
pub proof fn lemma_object_definition_rules(row: TableRow)
    ensures
        spec_check_object_definition(row) is Ok <==> (row matches TableRow::Element(_, t) && t != 2),
{
}

/// Checks the definition `add_object_to_stack` is asked to create an
/// object from.
pub fn check_object_definition(row: TableRow) -> (r: Result<(), ObjectDefinitionError>)
    ensures
        r == spec_check_object_definition(row),
{
    match row {
        TableRow::Metadata => Err(ObjectDefinitionError::StateManager),
        TableRow::Asset(rowid, type_num) => Err(ObjectDefinitionError::Asset { rowid, type_num }),
        TableRow::Element(rowid, type_num) => {
            if type_num == 2 {
                Err(ObjectDefinitionError::Scene { rowid })
            } else {
                Ok(())
            }
        },
    }
}

/// The message of an `add_object_to_stack` definition error; `name` is
/// the asset name the game data gives the rowid.
pub open spec fn object_definition_error_text(e: ObjectDefinitionError, name: Seq<char>) -> Seq<char> {
    match e {
        ObjectDefinitionError::StateManager =>
            "Tried to use 'add_object_to_stack' with the state manager's definition."@,
        ObjectDefinitionError::Asset { rowid, type_num } =>
            "Tried to use 'add_object_to_stack' with a definition of an asset (name: '"@ + name
            + "', id: "@ + decimal(rowid as nat) + ", type: "@ + decimal(type_num as nat) + ")"@,
        ObjectDefinitionError::Scene { rowid } =>
            "Tried to use 'add_object_to_stack' with a definition of a scene (name: '"@ + name
            + "', id: "@ + decimal(rowid as nat) + ")"@,
    }
}

impl ObjectDefinitionError {
    /// The message the script sees.
    pub fn message(&self, name: &str) -> (r: String)
        ensures
            r@ == object_definition_error_text(*self, name@),
    {
        match *self {
            ObjectDefinitionError::StateManager => String::from_str(
                "Tried to use 'add_object_to_stack' with the state manager's definition.",
            ),
            ObjectDefinitionError::Asset { rowid, type_num } => {
                let mut r = String::from_str(
                    "Tried to use 'add_object_to_stack' with a definition of an asset (name: '",
                );
                r.append(name);
                r.append("', id: ");
                push_decimal(&mut r, rowid as u64);
                r.append(", type: ");
                push_decimal(&mut r, type_num as u64);
                r.append(")");
                r
            },
            ObjectDefinitionError::Scene { rowid } => {
                let mut r = String::from_str(
                    "Tried to use 'add_object_to_stack' with a definition of a scene (name: '",
                );
                r.append(name);
                r.append("', id: ");
                push_decimal(&mut r, rowid as u64);
                r.append(")");
                r
            },
        }
    }
}

} // verus!
