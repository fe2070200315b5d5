//! Identification of the rows of the game data that elements and assets
//! come from, and the error text that names them.

use vstd::prelude::*;

verus! {

/// A row in one of the game data's tables: the state manager's unique
/// row (`Metadata`), or an element or asset by rowid and type number.
#[derive(Clone, Copy, Debug, PartialEq, Eq)]
pub enum TableRow {
    Metadata,
    Element(u32, u8),
    Asset(u32, u8),
}

/// The word for an element of type number `kind`.
pub open spec fn element_kind_name(kind: u8) -> Seq<char> {
    if kind == 1 {
        "object"@
    } else if kind == 2 {
        "scene"@
    } else {
        "element"@
    }
}

/// The word for an asset of type number `kind`.
pub open spec fn asset_kind_name(kind: u8) -> Seq<char> {
    if kind == 1 {
        "sprite"@
    } else if kind == 2 {
        "audio"@
    } else if kind == 3 {
        "font"@
    } else {
        "asset"@
    }
}

/// The text `to_err_string` appends to an error, given the row's name.
pub open spec fn row_suffix(row: TableRow, name: Seq<char>) -> Seq<char> {
    match row {
        TableRow::Metadata => "\non 'State Manager'."@,
        TableRow::Element(_, kind) => "\non the '"@ + name + "' "@ + element_kind_name(kind) + "."@,
        TableRow::Asset(_, kind) => "\non the '"@ + name + "' "@ + asset_kind_name(kind) + "."@,
    }
}

fn element_kind_str(kind: u8) -> (r: &'static str)
    ensures
        r@ == element_kind_name(kind),
{
    if kind == 1 {
        "object"
    } else if kind == 2 {
        "scene"
    } else {
        "element"
    }
}

fn asset_kind_str(kind: u8) -> (r: &'static str)
    ensures
        r@ == asset_kind_name(kind),
{
    if kind == 1 {
        "sprite"
    } else if kind == 2 {
        "audio"
    } else if kind == 3 {
        "font"
    } else {
        "asset"
    }
}

impl TableRow {
    /// Wraps the error message `err` so that it names the element or asset
    /// that caused it. `name` is the name the game data gives the row: the
    /// element's name for an element row, the asset's name for an asset
    /// row (the state manager's row needs none).
    pub fn to_err_string(&self, err: &str, name: &str) -> (r: String)
        ensures
            r@ == err@ + row_suffix(*self, name@),
    {
        let mut r = String::from_str(err);
        match *self {
            TableRow::Metadata => {
                r.append("\non 'State Manager'.");
            },
            TableRow::Element(_, kind) => {
                r.append("\non the '");
                r.append(name);
                r.append("' ");
                r.append(element_kind_str(kind));
                r.append(".");
            },
            TableRow::Asset(_, kind) => {
                r.append("\non the '");
                r.append(name);
                r.append("' ");
                r.append(asset_kind_str(kind));
                r.append(".");
            },
        }
        r
    }
}

/// The scene the main loop has to switch to: the state manager's
/// requested scene, when the current scene element (`row`) is a scene
/// with another rowid. No switch is due while the current row is not a
/// scene's.
pub open spec fn spec_pending_scene_switch(row: TableRow, requested: u32) -> Option<u32> {
    match row {
        TableRow::Element(id, 2) => if requested != id {
            Some(requested)
        } else {
            None
        },
        _ => None,
    }
}

/// A scene switch, when one is due, goes to the requested scene, and one
/// is due exactly when the current element is a scene whose rowid is not
/// the requested one.
pub proof fn lemma_scene_switch_rules(row: TableRow, requested: u32)
    ensures
        spec_pending_scene_switch(row, requested) is Some ==> spec_pending_scene_switch(row, requested) == Some(
            requested,
        ),
        spec_pending_scene_switch(row, requested) is Some <==> (row matches TableRow::Element(id, 2) && id != requested),
{
}

/// Decides whether the main loop has to switch scenes after an update.
pub fn pending_scene_switch(row: TableRow, requested: u32) -> (r: Option<u32>)
    ensures
        r == spec_pending_scene_switch(row, requested),
{
    match row {
        TableRow::Element(id, kind) => {
            if kind == 2 && requested != id {
                Some(requested)
            } else {
                None
            }
        },
        _ => None,
    }
}

} // verus!
