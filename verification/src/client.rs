//! The client view model: a cached copy of the list plus transient UI
//! state, driven by UI events and fetch results. The model never mutates
//! its cached list locally in response to a user action: every mutation is
//! issued as a command whose response carries the authoritative snapshot,
//! which then replaces the cache wholesale.

use vstd::prelude::*;

use crate::text::trim_text;
use crate::text::trimmed;

verus! {

/// The client's local state.
pub struct Model {
    /// The cached copy of the server's list.
    pub items: Vec<String>,
    /// The text of an item not yet submitted.
    pub new_item: String,
    /// The index picked by a first swap-intent click, awaiting its partner;
    /// `None` when no swap is pending.
    pub selection: Option<usize>,
    /// The last recorded transport failure, if any.
    pub error: Option<String>,
}

/// An event the view model reacts to.
pub enum Msg {
    /// A fetch round trip finished: either the fresh snapshot or a
    /// transport failure message.
    FetchedItems(Result<Vec<String>, String>),
    /// The pending input text was edited.
    NewItemInputChanged(String),
    /// The save button: submit the pending input.
    Save,
    /// The clear button: empty the whole list.
    Clear,
    /// The delete button of the row at this index.
    Delete(usize),
    /// A swap-intent click on the row at this index.
    Swap(usize),
}

/// The request, if any, that the view model asks its surroundings to send.
/// Every variant's response comes back as `Msg::FetchedItems`.
pub enum Command {
    /// Nothing to send.
    NoRequest,
    /// Read the current list.
    FetchItems,
    /// Append the given (already trimmed) text.
    SaveItem(String),
    /// Empty the list.
    ClearItems,
    /// Remove the element at the given index.
    DeleteItem(usize),
    /// Exchange the elements at the two given indices, first click first.
    SwapItems(usize, usize),
}

/// `b` agrees with `a` on every field except (possibly) the cached items.
pub open spec fn same_but_items(a: Model, b: Model) -> bool {
    b.new_item == a.new_item && b.selection == a.selection && b.error == a.error
}

/// `b` agrees with `a` on every field except (possibly) the error state.
pub open spec fn same_but_error(a: Model, b: Model) -> bool {
    b.items == a.items && b.new_item == a.new_item && b.selection == a.selection
}

/// `b` agrees with `a` on every field except (possibly) the pending input.
pub open spec fn same_but_new_item(a: Model, b: Model) -> bool {
    b.items == a.items && b.selection == a.selection && b.error == a.error
}

/// `b` agrees with `a` on every field except (possibly) the swap selection.
pub open spec fn same_but_selection(a: Model, b: Model) -> bool {
    b.items == a.items && b.new_item == a.new_item && b.error == a.error
}

/// The fresh model: empty cache, empty pending input, no pending swap, no
/// error; its first command fetches the current list.
pub fn init() -> (r: (Model, Command))
    ensures
        r.0.items@ =~= Seq::<String>::empty(),
        r.0.new_item@ =~= Seq::<char>::empty(),
        r.0.selection is None,
        r.0.error is None,
        r.1 is FetchItems,
{
    let model = Model {
        items: Vec::new(),
        new_item: String::new(),
        selection: None,
        error: None,
    };
    (model, Command::FetchItems)
}

/// One step of the view model: reacts to `msg`, updates the model, and
/// answers with the command to send (or `NoRequest`).
///
/// - A fetched snapshot replaces the cache wholesale; a fetch failure is
///   recorded and leaves the cache untouched.
/// - `Save` submits the trimmed pending input only when it is non-empty,
///   and clears the pending input at once, before any response.
/// - `Clear` is only sent while the cache is non-empty.
/// - `Delete` is always sent.
/// - `Swap` follows the two-click protocol: a first click selects the
///   index, a second click on the same index cancels, a click on another
///   index sends the swap (first click first) and resets the selection at
///   once, before any response.
pub fn update(msg: Msg, model: &mut Model) -> (cmd: Command)
    ensures
        match msg {
            Msg::FetchedItems(res) => match res {
                Ok(items) => final(model).items == items
                    && same_but_items(*old(model), *final(model))
                    && cmd is NoRequest,
                Err(e) => final(model).error == Some(e)
                    && same_but_error(*old(model), *final(model))
                    && cmd is NoRequest,
            },
            Msg::NewItemInputChanged(text) => final(model).new_item == text
                && same_but_new_item(*old(model), *final(model))
                && cmd is NoRequest,
            Msg::Save => if trimmed(old(model).new_item@).len() > 0 {
                (cmd matches Command::SaveItem(t) && t@ == trimmed(old(model).new_item@))
                    && final(model).new_item@ == Seq::<char>::empty()
                    && same_but_new_item(*old(model), *final(model))
            } else {
                *final(model) == *old(model) && cmd is NoRequest
            },
            Msg::Clear => *final(model) == *old(model) && if old(model).items@.len() > 0 {
                cmd is ClearItems
            } else {
                cmd is NoRequest
            },
            Msg::Delete(index) => *final(model) == *old(model) && cmd == Command::DeleteItem(index),
            Msg::Swap(index) => match old(model).selection {
                None => final(model).selection == Some(index)
                    && same_but_selection(*old(model), *final(model))
                    && cmd is NoRequest,
                Some(first) => final(model).selection is None
                    && same_but_selection(*old(model), *final(model))
                    && if first == index {
                    cmd is NoRequest
                } else {
                    cmd == Command::SwapItems(first, index)
                },
            },
        },
{
    match msg {
        Msg::FetchedItems(res) => {
            match res {
                Ok(items) => {
                    model.items = items;
                },
                Err(e) => {
                    model.error = Some(e);
                },
            }
            Command::NoRequest
        },
        Msg::NewItemInputChanged(text) => {
            model.new_item = text;
            Command::NoRequest
        },
        Msg::Save => {
            let t = trim_text(model.new_item.as_str());
            if t.as_str().unicode_len() > 0 {
                model.new_item = String::new();
                Command::SaveItem(t)
            } else {
                Command::NoRequest
            }
        },
        Msg::Clear => {
            if model.items.len() > 0 {
                Command::ClearItems
            } else {
                Command::NoRequest
            }
        },
        Msg::Delete(index) => Command::DeleteItem(index),
        Msg::Swap(index) => {
            match model.selection {
                None => {
                    model.selection = Some(index);
                    Command::NoRequest
                },
                Some(first) => {
                    model.selection = None;
                    if first == index {
                        Command::NoRequest
                    } else {
                        Command::SwapItems(first, index)
                    }
                },
            }
        },
    }
}

} // verus!
