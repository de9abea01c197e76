use vstd::prelude::*;

use crate::geometry::{
    helper_in_rect, helper_rect_in_rect, in_rect, normalize_rect, normalized, rects_overlap,
    ScreenPoint, SelectionRectScreen,
};

verus! {

/// Marks an object that can be selected, with its current selection flag.
#[derive(Clone, Copy, Debug, PartialEq, Eq, Structural)]
pub struct Selectable {
    pub is_selected: bool,
}

impl Default for Selectable {
    fn default() -> (r: Selectable)
        ensures
            !r.is_selected,
    {
        Selectable { is_selected: false }
    }
}

/// A drag in progress, from where the button went down to where the pointer is.
#[derive(Clone, Copy, Debug, PartialEq, Eq, Structural)]
pub struct SelectionPending {
    pub begin_pos_ui: ScreenPoint,
    pub end_pos_ui: ScreenPoint,
}

/// The selection state. `Hover` names the object under the pointer, if any,
/// by its index in the host's list of selectable objects; `OnGoing` is a drag
/// with the button held.
#[derive(Clone, Copy, Debug, PartialEq, Eq, Structural)]
pub enum Selection {
    Hover(Option<usize>),
    OnGoing(SelectionPending),
}

/// The object with screen rectangle `rect` (none when it could not be
/// projected) lies under the point `p`.
pub open spec fn hit(rect: Option<SelectionRectScreen>, p: ScreenPoint) -> bool {
    match rect {
        Some(r) => in_rect(p, r.min, r.max),
        None => false,
    }
}

/// The object with screen rectangle `rect` overlaps the drag rectangle with
/// corners `begin` and `end`.
pub open spec fn drag_hit(
    rect: Option<SelectionRectScreen>,
    begin: ScreenPoint,
    end: ScreenPoint,
) -> bool {
    match rect {
        Some(r) => rects_overlap(r.min, r.max, begin, end),
        None => false,
    }
}

/// The first index at or after `k` whose rectangle lies under `p`.
pub open spec fn first_hit_from(
    rects: Seq<Option<SelectionRectScreen>>,
    p: ScreenPoint,
    k: int,
) -> Option<usize>
    decreases rects.len() - k,
{
    if k < 0 || k >= rects.len() {
        None
    } else if hit(rects[k], p) {
        Some(k as usize)
    } else {
        first_hit_from(rects, p, k + 1)
    }
}

/// The first object whose rectangle lies under `p`, if any.
pub open spec fn first_hit(
    rects: Seq<Option<SelectionRectScreen>>,
    p: ScreenPoint,
) -> Option<usize> {
    first_hit_from(rects, p, 0)
}

/// The state after one update with the pointer at `cursor`.
pub open spec fn next_selection(
    s: Selection,
    cursor: ScreenPoint,
    pressed: bool,
    rects: Seq<Option<SelectionRectScreen>>,
) -> Selection {
    if pressed {
        match s {
            Selection::Hover(_) => Selection::OnGoing(
                SelectionPending { begin_pos_ui: cursor, end_pos_ui: cursor },
            ),
            Selection::OnGoing(p) => Selection::OnGoing(
                SelectionPending { begin_pos_ui: p.begin_pos_ui, end_pos_ui: cursor },
            ),
        }
    } else {
        Selection::Hover(first_hit(rects, cursor))
    }
}

/// After a drag from `begin` to `end` is released, `after` holds the flags of
/// the objects with rectangles `rects`: selected exactly where they overlap
/// the drag rectangle.
pub open spec fn selected_by_drag(
    after: Seq<Selectable>,
    rects: Seq<Option<SelectionRectScreen>>,
    begin: ScreenPoint,
    end: ScreenPoint,
) -> bool {
    after.len() == rects.len() && forall|i: int|
        0 <= i < rects.len() ==> (#[trigger] after[i]).is_selected == drag_hit(
            rects[i],
            begin,
            end,
        )
}

proof fn lemma_first_hit_skip(rects: Seq<Option<SelectionRectScreen>>, p: ScreenPoint, k: int)
    requires
        0 <= k < rects.len(),
        !hit(rects[k], p),
    ensures
        first_hit_from(rects, p, k) == first_hit_from(rects, p, k + 1),
{
}

/// The first object, in list order, whose screen rectangle contains
/// `position`; `None` when no rectangle does.
pub fn pick_hover(
    rects: &Vec<Option<SelectionRectScreen>>,
    position: &ScreenPoint,
) -> (r: Option<usize>)
    ensures
        r == first_hit(rects@, *position),
{
    let mut k: usize = 0;
    while k < rects.len()
        invariant
            k <= rects@.len(),
            first_hit(rects@, *position) == first_hit_from(rects@, *position, k as int),
        decreases rects@.len() - k,
    {
        match &rects[k] {
            Some(rect) => {
                if helper_in_rect(position, &rect.min, &rect.max) {
                    return Some(k);
                }
            },
            None => {},
        }
        proof {
            lemma_first_hit_skip(rects@, *position, k as int);
        }
        k = k + 1;
    }
    None
}

/// Sets each object's flag: selected exactly when its screen rectangle
/// overlaps the rectangle with corners `begin` and `end`. Objects without a
/// rectangle are cleared.
pub fn resolve_drag(
    selectables: &mut Vec<Selectable>,
    rects: &Vec<Option<SelectionRectScreen>>,
    begin: &ScreenPoint,
    end: &ScreenPoint,
)
    requires
        old(selectables)@.len() == rects@.len(),
    ensures
        selected_by_drag(final(selectables)@, rects@, *begin, *end),
{
    let n = selectables.len();
    let mut k: usize = 0;
    while k < n
        invariant
            n == rects@.len(),
            selectables@.len() == n,
            k <= n,
            forall|i: int|
                0 <= i < k ==> (#[trigger] selectables@[i]).is_selected == drag_hit(
                    rects@[i],
                    *begin,
                    *end,
                ),
        decreases n - k,
    {
        selectables.set(k, Selectable { is_selected: false });
        match &rects[k] {
            Some(rect) => {
                if helper_rect_in_rect((&rect.min, &rect.max), (begin, end)) {
                    selectables.set(k, Selectable { is_selected: true });
                }
            },
            None => {},
        }
        k = k + 1;
    }
}

/// One update of the selection from the pointer. With no pointer position
/// (the cursor is outside the window) nothing changes. While the button is
/// held a drag starts or follows the pointer. On release after a drag every
/// object is selected exactly when its rectangle overlaps the drag rectangle,
/// which runs from where the drag began to the pointer; then, released or
/// not, the state becomes `Hover` of the first object under the pointer.
pub fn selection_system(
    selection: &mut Selection,
    cursor: Option<ScreenPoint>,
    pressed: bool,
    selectables: &mut Vec<Selectable>,
    rects: &Vec<Option<SelectionRectScreen>>,
)
    requires
        old(selectables)@.len() == rects@.len(),
    ensures
        final(selectables)@.len() == old(selectables)@.len(),
        cursor is None ==> *final(selection) == *old(selection) && final(selectables)@ == old(
            selectables,
        )@,
        cursor matches Some(c) ==> *final(selection) == next_selection(
            *old(selection),
            c,
            pressed,
            rects@,
        ),
        cursor matches Some(c) ==> if !pressed && *old(selection) is OnGoing {
            selected_by_drag(
                final(selectables)@,
                rects@,
                (*old(selection))->OnGoing_0.begin_pos_ui,
                c,
            )
        } else {
            final(selectables)@ == old(selectables)@
        },
{
    let ui_position = match cursor {
        Some(c) => c,
        None => return ,
    };
    if pressed {
        match selection {
            Selection::Hover(_) => {
                *selection = Selection::OnGoing(
                    SelectionPending { begin_pos_ui: ui_position, end_pos_ui: ui_position },
                );
            },
            Selection::OnGoing(on_going) => {
                on_going.end_pos_ui = ui_position;
            },
        }
        return ;
    }
    match selection {
        Selection::OnGoing(on_going) => {
            let begin = on_going.begin_pos_ui;
            resolve_drag(selectables, rects, &begin, &ui_position);
        },
        Selection::Hover(_) => {},
    }
    *selection = Selection::Hover(pick_hover(rects, &ui_position));
}

/// The drag rectangle to show, normalised so that `min <= max`, while a drag
/// is in progress; `None` (the overlay is hidden) otherwise.
pub fn selection_ui_rect_data_update(selection: &Selection) -> (r: Option<SelectionRectScreen>)
    ensures
        match *selection {
            Selection::OnGoing(p) => r == Some(normalized(p.begin_pos_ui, p.end_pos_ui)),
            Selection::Hover(_) => r is None,
        },
{
    match selection {
        Selection::OnGoing(p) => Some(normalize_rect(&p.begin_pos_ui, &p.end_pos_ui)),
        Selection::Hover(_) => None,
    }
}

/// Updates the visibility of an object's highlight from its parent: shown
/// exactly when the parent is selected. A highlight whose parent is not
/// selectable keeps its visibility.
pub fn selection_ui_visual_toggle(visible: &mut bool, parent: Option<&Selectable>)
    ensures
        *final(visible) == match parent {
            Some(s) => s.is_selected,
            None => *old(visible),
        },
{
    if let Some(selectable) = parent {
        *visible = selectable.is_selected;
    }
}

/// A click (a drag that begins and ends at one point) selects an object
/// exactly when its rectangle contains that point.
pub proof fn lemma_click_selects_containing(rect: Option<SelectionRectScreen>, p: ScreenPoint)
    ensures
        drag_hit(rect, p, p) == hit(rect, p),
{
}

} // verus!
