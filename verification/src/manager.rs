//! The button manager: buttons keyed by identifiers that are never reused.

use vstd::prelude::*;
use std::collections::HashMap;
use vstd::std_specs::iter::IteratorSpec;
use crate::button::{Button, Translation};
use crate::gui::{screen_projection_bounds, window_bounds, OrthoBounds};
use crate::types::{ScreenPos, Size2};

verus! {

broadcast use vstd::std_specs::hash::group_hash_axioms;

/// Identifier of a button. Identifiers are issued in increasing order,
/// starting at 0, and are never issued twice.
#[derive(PartialEq, Eq, Hash, Clone, Copy, Debug, Structural)]
pub struct ButtonId {
    pub id: i32,
}

/// Whether the point `(x, y)` lies in the box spanned by `pos` and
/// `pos + size`, all four edges included.
pub open spec fn box_contains<M>(button: Button<M>, x: int, y: int) -> bool {
    &&& button.pos().x <= x <= button.pos().x + button.size().w
    &&& button.pos().y <= y <= button.pos().y + button.size().h
}

/// Whether a pointer at `pointer`, measured from the top-left corner of a
/// window `win_height` pixels high, lies on `button`, which is placed from the
/// bottom-left corner.
pub open spec fn is_hit<M>(button: Button<M>, pointer: ScreenPos, win_height: int) -> bool {
    box_contains(button, pointer.x as int, win_height - pointer.y)
}

/// One button to draw: which one, and where its mesh goes.
#[derive(Clone, Copy, Debug, PartialEq, Eq, Structural)]
pub struct DrawCall {
    pub id: ButtonId,
    pub translation: Translation,
}

/// What drawing all buttons takes: one projection shared by all, and one
/// call per button.
#[derive(Debug)]
pub struct Frame {
    pub projection: OrthoBounds,
    pub calls: Vec<DrawCall>,
}

/// Whether `calls` draws each button of `buttons` exactly once, each at its
/// own place.
pub open spec fn draws_each_once<M>(calls: Seq<DrawCall>, buttons: Map<i32, Button<M>>) -> bool {
    &&& calls.len() == buttons.len()
    &&& forall|i: int|
        0 <= i < calls.len() ==> buttons.contains_key(#[trigger] calls[i].id.id)
            && calls[i].translation == buttons[calls[i].id.id].translation()
    &&& forall|i: int, j: int|
        0 <= i < j < calls.len() ==> (#[trigger] calls[i]).id != (#[trigger] calls[j]).id
    &&& forall|k: i32|
        buttons.contains_key(k) ==> exists|i: int|
            0 <= i < calls.len() && (#[trigger] calls[i]).id.id == k
}

/// Owns the buttons on screen and issues their identifiers.
#[derive(Clone, Debug)]
pub struct ButtonManager<M> {
    buttons: HashMap<i32, Button<M>>,
    last_id: ButtonId,
}

impl<M> ButtonManager<M> {
    /// The live buttons, by the number of their identifier.
    pub closed spec fn view(&self) -> Map<i32, Button<M>> {
        self.buttons@
    }

    /// The identifier that the next added button will get.
    pub closed spec fn spec_next_id(&self) -> ButtonId {
        self.last_id
    }

    /// The identifier that the next added button will get.
    #[verifier::when_used_as_spec(spec_next_id)]
    pub fn next_id(&self) -> (id: ButtonId)
        ensures
            id == self.next_id(),
    {
        self.last_id
    }

    /// Identifiers count up from 0, and every live button carries one that
    /// was issued before.
    pub open spec fn wf(&self) -> bool {
        &&& 0 <= self.next_id().id
        &&& forall|k: i32| self@.contains_key(k) ==> 0 <= k < self.next_id().id
    }

    /// An empty manager whose first identifier is 0.
    pub fn new() -> (manager: Self)
        ensures
            manager@ == Map::<i32, Button<M>>::empty(),
            manager.next_id() == (ButtonId { id: 0 }),
            manager.wf(),
    {
        ButtonManager { buttons: HashMap::new(), last_id: ButtonId { id: 0 } }
    }

    /// The live buttons.
    pub fn buttons(&self) -> (buttons: &HashMap<i32, Button<M>>)
        ensures
            buttons@ == self@,
    {
        &self.buttons
    }

    /// The live buttons, for changing them in place. The identifier counter
    /// is out of reach of the borrower.
    pub fn buttons_mut(&mut self) -> (buttons: &mut HashMap<i32, Button<M>>)
        ensures
            buttons@ == old(self)@,
            final(self)@ == final(buttons)@,
            final(self).next_id() == old(self).next_id(),
    {
        &mut self.buttons
    }

    /// Stores `button` under the next identifier and returns that identifier.
    pub fn add_button(&mut self, button: Button<M>) -> (id: ButtonId)
        requires
            old(self).next_id().id < i32::MAX,
        ensures
            id == old(self).next_id(),
            final(self)@ == old(self)@.insert(id.id, button),
            final(self).next_id().id == id.id + 1,
            old(self).wf() ==> !old(self)@.contains_key(id.id) && final(self).wf(),
    {
        let id = self.last_id;
        self.buttons.insert(id.id, button);
        self.last_id = ButtonId { id: id.id + 1 };
        id
    }

    /// Removes the button `id` and drops it. The identifier must be live; it
    /// is not issued again.
    pub fn remove_button(&mut self, id: ButtonId)
        requires
            old(self)@.contains_key(id.id),
        ensures
            final(self)@ == old(self)@.remove(id.id),
            final(self).next_id() == old(self).next_id(),
            old(self).wf() ==> final(self).wf(),
    {
        self.buttons.remove(&id.id).unwrap();
    }

    /// The button under the pointer, if any.
    ///
    /// The pointer is measured from the top-left corner of the window, buttons
    /// from the bottom-left. Where several buttons overlap under the pointer,
    /// any one of them may be reported.
    pub fn get_clicked_button_id(&self, pointer: ScreenPos, win_height: i32) -> (clicked: Option<ButtonId>)
        ensures
            match clicked {
                Some(id) => self@.contains_key(id.id) && is_hit(self@[id.id], pointer, win_height as int),
                None => forall|k: i32| self@.contains_key(k) ==> !is_hit(self@[k], pointer, win_height as int),
            },
    {
        let x: i64 = pointer.x as i64;
        let y: i64 = win_height as i64 - pointer.y as i64;
        for entry in iter: self.buttons.iter()
            invariant
                x == pointer.x,
                y == win_height - pointer.y,
                iter.seq() == self.buttons.iter().remaining(),
                forall|i: int|
                    0 <= i < iter.index() ==> !is_hit(
                        *(#[trigger] iter.seq()[i]).1,
                        pointer,
                        win_height as int,
                    ),
        {
            let (id, button) = entry;
            let pos = button.pos();
            let size = button.size();
            if x >= pos.x as i64 && x <= pos.x as i64 + size.w as i64 && y >= pos.y as i64 && y
                <= pos.y as i64 + size.h as i64 {
                return Some(ButtonId { id: *id });
            }
        }
        None
    }

    /// Plans the drawing of all buttons in a window of `win_size` pixels: the
    /// projection of the window, and for each button the move to its place.
    /// The order of the calls is not fixed.
    pub fn draw(&self, win_size: Size2) -> (frame: Frame)
        ensures
            frame.projection == window_bounds(win_size),
            draws_each_once(frame.calls@, self@),
    {
        let projection = screen_projection_bounds(win_size);
        let mut calls: Vec<DrawCall> = Vec::new();
        for entry in iter: self.buttons.iter()
            invariant
                iter.seq() == self.buttons.iter().remaining(),
                iter.seq().no_duplicates(),
                calls@.len() == iter.index(),
                forall|i: int|
                    0 <= i < calls@.len() ==> (#[trigger] calls@[i]).id.id == *iter.seq()[i].0
                        && calls@[i].translation == iter.seq()[i].1.translation(),
        {
            let (id, button) = entry;
            calls.push(DrawCall { id: ButtonId { id: *id }, translation: button.translation() });
        }
        proof {
            let entries = self.buttons.iter().remaining();
            let buttons = self.buttons@;
            assert(calls@.len() == entries.len());
            assert forall|i: int| 0 <= i < calls@.len() implies buttons.contains_key(
                #[trigger] calls@[i].id.id,
            ) && calls@[i].translation == buttons[calls@[i].id.id].translation() by {
                assert(buttons.contains_key(*entries[i].0));
            }
            assert forall|i: int, j: int| 0 <= i < j < calls@.len() implies (#[trigger] calls@[i]).id
                != (#[trigger] calls@[j]).id by {
                assert(buttons.contains_key(*entries[i].0));
                assert(buttons.contains_key(*entries[j].0));
                assert(entries[i] != entries[j]);
            }
            assert forall|k: i32| buttons.contains_key(k) implies exists|i: int|
                0 <= i < calls@.len() && (#[trigger] calls@[i]).id.id == k by {
                assert(entries.contains((&k, &buttons[k])));
                let i = choose|i: int| 0 <= i < entries.len() && entries[i] == (&k, &buttons[k]);
                assert(calls@[i].id.id == k);
            }
        }
        Frame { projection, calls }
    }
}

} // verus!
