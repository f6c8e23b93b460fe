//! A boundary-safe encoding of an accessibility tree: node identities,
//! optional values, strings, node properties, tree updates and action
//! requests, with the rules for building and handing over nodes.

mod actions;
mod adapters;
mod cstring;
mod engine;
mod ids;
mod nodes;
mod optional;
mod properties;
mod table;
mod text;
mod updates;

pub use actions::{
    action_data, action_request, lemma_action_data_round_trip, lemma_action_request_round_trip,
    ActionData, ActionDataView, ActionRequest, ActionRequestView,
};
pub use adapters::unix_adapter;
pub use cstring::{
    accesskit_string_free, before_nul, buffer_bytes, c_string_chars, c_string_of, decode_c_string,
    encode_c_string, has_no_nul, lemma_c_string_round_trip, lemma_empty_string_present, lossy_utf8,
    utf8_or_lossy,
};
pub use ids::{
    decode_node_ids, decode_opt_node_id, encode_node_ids, encode_opt_node_id, id_value,
    lemma_node_id_decode_encode, lemma_node_id_encode_decode, lemma_node_ids_round_trip,
    lemma_opt_node_id_round_trip, named_ids, node_id, opt_id_value, NodeId,
};
pub use nodes::{node, node_builder, node_class_set, NodeClassView};
pub use optional::{encoded, lemma_opt_decode_encode, lemma_opt_encode_decode, opt};
pub use properties::{
    actions_view, opt_actions_view, BoolProperty, ColorProperty, CoordsProperty,
    DecorationProperty, EnumProperty, EnumValue, FlagProperty, IndexProperty, LengthsProperty,
    NodeIdProperty, NodeIdVecProperty, NumberProperty, Properties, PropertiesView, StringProperty,
    BOOL_COUNT, COLOR_COUNT, COORDS_COUNT, DECORATION_COUNT, ENUM_COUNT, FLAG_COUNT, INDEX_COUNT,
    LENGTHS_COUNT, NODE_ID_COUNT, NODE_ID_VEC_COUNT, NUMBER_COUNT, STRING_COUNT,
};
pub use table::{items_of, lemma_pushes_keep_order, lemma_set_clear_get, PropertyTable};
pub use text::{
    custom_action, decode_custom_actions, encode_custom_actions, lemma_text_position_rewrite, lemma_text_position_round_trip,
    lemma_text_selection_round_trip, text_position, text_selection, CustomAction, TextPosition,
    TextSelection,
};
pub use updates::{
    decode_opt_tree, decoded_opt_id, decoded_opt_tree, encode_opt_tree, kept_pairs,
    lemma_tree_round_trip, tree, tree_update, Tree, TreeUpdate,
};
