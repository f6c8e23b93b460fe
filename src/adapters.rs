//! The library's side of the Linux adapter: what it is created from, the
//! window bounds it was last given, and the updates handed to it. The
//! platform's accessibility bus is driven outside the library.

use crate::cstring::{c_string_chars, decode_c_string};
use crate::updates::{decoded_opt_tree, decoded_opt_id, kept_pairs, tree_update, TreeUpdate};
use vstd::prelude::*;

verus! {

/// A Linux adapter as the library knows it: the names it announces, and the
/// outer and inner bounds of the root window, once given.
#[allow(non_camel_case_types)]
pub struct unix_adapter {
    pub app_name: String,
    pub toolkit_name: String,
    pub toolkit_version: String,
    pub root_window_bounds: Option<(accesskit::Rect, accesskit::Rect)>,
}

impl unix_adapter {
    /// An adapter announcing the given names, which arrive as boundary
    /// strings; none when the source of the initial tree or the action
    /// handler is missing.
    pub fn accesskit_unix_adapter_new(
        app_name: &[u8],
        toolkit_name: &[u8],
        toolkit_version: &[u8],
        has_initial_state: bool,
        has_handler: bool,
    ) -> (r: Option<unix_adapter>)
        ensures
            r.is_some() == (has_initial_state && has_handler),
            r matches Some(a) ==> {
                &&& a.app_name@ == c_string_chars(app_name@)
                &&& a.toolkit_name@ == c_string_chars(toolkit_name@)
                &&& a.toolkit_version@ == c_string_chars(toolkit_version@)
                &&& a.root_window_bounds.is_none()
            },
    {
        if !has_initial_state || !has_handler {
            return None;
        }
        Some(
            unix_adapter {
                app_name: decode_c_string(app_name),
                toolkit_name: decode_c_string(toolkit_name),
                toolkit_version: decode_c_string(toolkit_version),
                root_window_bounds: None,
            },
        )
    }

    /// Records the outer and inner bounds of the root window.
    pub fn accesskit_unix_adapter_set_root_window_bounds(
        &mut self,
        outer: accesskit::Rect,
        inner: accesskit::Rect,
    )
        ensures
            final(self).root_window_bounds == Some((outer, inner)),
            final(self).app_name == old(self).app_name,
            final(self).toolkit_name == old(self).toolkit_name,
            final(self).toolkit_version == old(self).toolkit_version,
    {
        self.root_window_bounds = Some((outer, inner));
    }

    /// Takes over a boundary update and gives back the batch to deliver to
    /// the platform, in the order given.
    pub fn accesskit_unix_adapter_update(&self, update: tree_update) -> (r: TreeUpdate)
        requires
            update.ids@.len() == update.nodes@.len(),
        ensures
            r.nodes@ == kept_pairs(update.ids@, update.nodes@),
            r.tree == decoded_opt_tree(update.tree),
            r.focus == decoded_opt_id(update.focus),
    {
        update.into_tree_update()
    }

    /// Releases the adapter.
    pub fn accesskit_unix_adapter_free(adapter: unix_adapter) {
    }
}

} // verus!
