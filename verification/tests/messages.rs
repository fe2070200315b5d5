use game_engine::engine_api::{check_object_definition, handler_kind, ElementKind, HandlerError, HandlerOp, ObjectDefinitionError};
use game_engine::game::{pending_scene_switch, TableRow};

#[test]
fn error_suffix_names_the_row() {
    assert_eq!(TableRow::Metadata.to_err_string("boom", "ignored"), "boom\non 'State Manager'.");
    assert_eq!(TableRow::Element(3, 1).to_err_string("boom", "Player"), "boom\non the 'Player' object.");
    assert_eq!(TableRow::Element(3, 2).to_err_string("e", "Level"), "e\non the 'Level' scene.");
    assert_eq!(TableRow::Element(3, 7).to_err_string("e", "X"), "e\non the 'X' element.");
    assert_eq!(TableRow::Asset(4, 1).to_err_string("e", "Hero"), "e\non the 'Hero' sprite.");
    assert_eq!(TableRow::Asset(4, 2).to_err_string("e", "Song"), "e\non the 'Song' audio.");
    assert_eq!(TableRow::Asset(4, 3).to_err_string("e", "Mono"), "e\non the 'Mono' font.");
    assert_eq!(TableRow::Asset(4, 0).to_err_string("e", "A"), "e\non the 'A' asset.");
}

#[test]
fn handler_kinds() {
    assert_eq!(handler_kind(TableRow::Metadata, HandlerOp::Create, false), Ok(ElementKind::StateManager));
    assert_eq!(handler_kind(TableRow::Metadata, HandlerOp::Recycle, false), Err(HandlerError::StateManagerRecycled));
    assert_eq!(handler_kind(TableRow::Element(5, 2), HandlerOp::Recycle, false), Ok(ElementKind::Scene));
    assert_eq!(handler_kind(TableRow::Element(5, 1), HandlerOp::Create, true), Ok(ElementKind::Object));
    assert_eq!(
        handler_kind(TableRow::Element(5, 1), HandlerOp::Create, false),
        Err(HandlerError::MissingObjectInfo { op: HandlerOp::Create, rowid: 5 })
    );
    assert_eq!(
        handler_kind(TableRow::Element(5, 9), HandlerOp::Recycle, true),
        Err(HandlerError::InvalidElement { op: HandlerOp::Recycle, rowid: 5, type_num: 9 })
    );
    assert_eq!(
        handler_kind(TableRow::Asset(6, 1), HandlerOp::Create, true),
        Err(HandlerError::AssetAsElement { op: HandlerOp::Create, rowid: 6, type_num: 1 })
    );
}

#[test]
fn handler_error_messages() {
    assert_eq!(
        HandlerError::MissingObjectInfo { op: HandlerOp::Create, rowid: 12 }.message("Coin"),
        "Tried to create object handler without 'object_info' parameter (name: 'Coin', id: 12)"
    );
    assert_eq!(
        HandlerError::MissingObjectInfo { op: HandlerOp::Recycle, rowid: 0 }.message("Coin"),
        "Tried to recycle object handler without 'object_info' parameter (name: 'Coin', id: 0)"
    );
    assert_eq!(
        HandlerError::InvalidElement { op: HandlerOp::Create, rowid: 7, type_num: 250 }.message("Q"),
        "In-valid element (on ElementHandler::new())(name: 'Q', id: 7, type: 250)"
    );
    assert_eq!(
        HandlerError::AssetAsElement { op: HandlerOp::Recycle, rowid: 4294967295, type_num: 3 }.message("F"),
        "Can't define an asset as an element (on ElementHandler::recycle())(name: 'F', id: 4294967295, type: 3)"
    );
    assert_eq!(HandlerError::StateManagerRecycled.message("x"), "Tried to recycle State Manager.");
    assert!(HandlerError::AssetAsElement { op: HandlerOp::Create, rowid: 1, type_num: 1 }.names_asset());
    assert!(!HandlerError::StateManagerRecycled.names_asset());
}

#[test]
fn object_definitions() {
    assert_eq!(check_object_definition(TableRow::Element(3, 1)), Ok(()));
    assert_eq!(check_object_definition(TableRow::Element(3, 0)), Ok(()));
    assert_eq!(check_object_definition(TableRow::Metadata), Err(ObjectDefinitionError::StateManager));
    assert_eq!(check_object_definition(TableRow::Element(3, 2)), Err(ObjectDefinitionError::Scene { rowid: 3 }));
    assert_eq!(
        check_object_definition(TableRow::Asset(8, 1)).unwrap_err().message("Hero"),
        "Tried to use 'add_object_to_stack' with a definition of an asset (name: 'Hero', id: 8, type: 1)"
    );
    assert_eq!(
        ObjectDefinitionError::Scene { rowid: 31 }.message("Lvl"),
        "Tried to use 'add_object_to_stack' with a definition of a scene (name: 'Lvl', id: 31)"
    );
    assert_eq!(
        ObjectDefinitionError::StateManager.message(""),
        "Tried to use 'add_object_to_stack' with the state manager's definition."
    );
}

#[test]
fn scene_switches() {
    assert_eq!(pending_scene_switch(TableRow::Element(2, 2), 5), Some(5));
    assert_eq!(pending_scene_switch(TableRow::Element(5, 2), 5), None);
    assert_eq!(pending_scene_switch(TableRow::Element(2, 1), 5), None);
    assert_eq!(pending_scene_switch(TableRow::Metadata, 5), None);
}
