//! The news-feed data model: one record per feed entry.

use vstd::prelude::*;

verus! {

/// One entry of the news feed: a headline, a body text, and extra display
/// text. All three fields are opaque display strings; their only semantics
/// is their position in the feed.
#[derive(Clone, Debug, PartialEq, Eq)]
pub struct UpdateItem {
    pub update_key: String,
    pub update_value: String,
    pub additional_info: String,
}

/// The mathematical view of an [`UpdateItem`]: the three fields as
/// character sequences.
pub struct UpdateItemView {
    pub update_key: Seq<char>,
    pub update_value: Seq<char>,
    pub additional_info: Seq<char>,
}

impl View for UpdateItem {
    type V = UpdateItemView;

    open spec fn view(&self) -> UpdateItemView {
        UpdateItemView {
            update_key: self.update_key@,
            update_value: self.update_value@,
            additional_info: self.additional_info@,
        }
    }
}

impl UpdateItem {
    /// Builds an item from its three fields.
    pub fn new(update_key: String, update_value: String, additional_info: String) -> (r: UpdateItem)
        ensures
            r@.update_key == update_key@,
            r@.update_value == update_value@,
            r@.additional_info == additional_info@,
    {
        UpdateItem { update_key, update_value, additional_info }
    }
}

/// The view of a whole feed: each item replaced by its view, order kept.
pub open spec fn items_view(items: Seq<UpdateItem>) -> Seq<UpdateItemView> {
    items.map_values(|it: UpdateItem| it@)
}

} // verus!
