use drag_select::geometry::{ScreenPoint, SelectionRectScreen};
use drag_select::selection::{
    pick_hover, resolve_drag, selection_system, selection_ui_rect_data_update,
    selection_ui_visual_toggle, Selectable, Selection, SelectionPending,
};

fn pt(x: i64, y: i64) -> ScreenPoint {
    ScreenPoint { x, y }
}

fn rect(x0: i64, y0: i64, x1: i64, y1: i64) -> Option<SelectionRectScreen> {
    Some(SelectionRectScreen { min: pt(x0, y0), max: pt(x1, y1) })
}

fn flags(v: &[Selectable]) -> Vec<bool> {
    v.iter().map(|s| s.is_selected).collect()
}

fn scene() -> Vec<Option<SelectionRectScreen>> {
    vec![
        rect(2, 2, 4, 4),     // inside the drag
        rect(8, 8, 20, 20),   // overlapping its corner
        rect(11, 0, 15, 5),   // to the right of it
        rect(10, 10, 12, 12), // touching its corner
        None,                 // not projected
        rect(-5, -5, 30, 30), // containing it
    ]
}

#[test]
fn default_selectable_is_not_selected() {
    assert!(!Selectable::default().is_selected);
}

#[test]
fn press_starts_drag() {
    let mut sel = Selection::Hover(None);
    let mut objs = vec![Selectable::default(); 6];
    selection_system(&mut sel, Some(pt(3, 7)), true, &mut objs, &scene());
    assert_eq!(sel, Selection::OnGoing(SelectionPending { begin_pos_ui: pt(3, 7), end_pos_ui: pt(3, 7) }));
    assert_eq!(flags(&objs), vec![false; 6]);
}

#[test]
fn held_button_follows_pointer() {
    let mut sel = Selection::OnGoing(SelectionPending { begin_pos_ui: pt(0, 0), end_pos_ui: pt(1, 1) });
    let mut objs = vec![Selectable::default(); 6];
    selection_system(&mut sel, Some(pt(6, 9)), true, &mut objs, &scene());
    assert_eq!(sel, Selection::OnGoing(SelectionPending { begin_pos_ui: pt(0, 0), end_pos_ui: pt(6, 9) }));
}

#[test]
fn release_selects_overlapping() {
    let mut sel = Selection::OnGoing(SelectionPending { begin_pos_ui: pt(0, 0), end_pos_ui: pt(9, 9) });
    let mut objs = vec![Selectable { is_selected: true }; 6];
    selection_system(&mut sel, Some(pt(10, 10)), false, &mut objs, &scene());
    assert_eq!(flags(&objs), vec![true, true, false, true, false, true]);
    // The pointer at (10, 10) rests over the second object first.
    assert_eq!(sel, Selection::Hover(Some(1)));
}

#[test]
fn release_with_reversed_drag() {
    let mut sel = Selection::OnGoing(SelectionPending { begin_pos_ui: pt(10, 10), end_pos_ui: pt(0, 0) });
    let mut objs = vec![Selectable::default(); 6];
    selection_system(&mut sel, Some(pt(0, 0)), false, &mut objs, &scene());
    assert_eq!(flags(&objs), vec![true, true, false, true, false, true]);
    assert_eq!(sel, Selection::Hover(Some(5)));
}

#[test]
fn click_selects_only_containing() {
    let mut sel = Selection::OnGoing(SelectionPending { begin_pos_ui: pt(3, 3), end_pos_ui: pt(3, 3) });
    let mut objs = vec![Selectable { is_selected: true }; 6];
    selection_system(&mut sel, Some(pt(3, 3)), false, &mut objs, &scene());
    assert_eq!(flags(&objs), vec![true, false, false, false, false, true]);
    assert_eq!(sel, Selection::Hover(Some(0)));
}

#[test]
fn click_on_nothing_selects_nothing() {
    let rects = vec![rect(2, 2, 4, 4), rect(8, 8, 9, 9)];
    let mut sel = Selection::OnGoing(SelectionPending { begin_pos_ui: pt(6, 6), end_pos_ui: pt(6, 6) });
    let mut objs = vec![Selectable { is_selected: true }; 2];
    selection_system(&mut sel, Some(pt(6, 6)), false, &mut objs, &rects);
    assert_eq!(flags(&objs), vec![false, false]);
    assert_eq!(sel, Selection::Hover(None));
}

#[test]
fn hover_without_drag_keeps_flags() {
    let mut sel = Selection::Hover(Some(0));
    let mut objs = vec![Selectable { is_selected: true }, Selectable::default(), Selectable::default(), Selectable::default(), Selectable::default(), Selectable::default()];
    selection_system(&mut sel, Some(pt(13, 2)), false, &mut objs, &scene());
    assert_eq!(flags(&objs), vec![true, false, false, false, false, false]);
    assert_eq!(sel, Selection::Hover(Some(2)));
}

#[test]
fn no_cursor_changes_nothing() {
    let start = Selection::OnGoing(SelectionPending { begin_pos_ui: pt(0, 0), end_pos_ui: pt(5, 5) });
    let mut sel = start;
    let mut objs = vec![Selectable::default(); 6];
    selection_system(&mut sel, None, false, &mut objs, &scene());
    assert_eq!(sel, start);
    assert_eq!(flags(&objs), vec![false; 6]);
}

#[test]
fn no_objects() {
    let mut sel = Selection::OnGoing(SelectionPending { begin_pos_ui: pt(0, 0), end_pos_ui: pt(5, 5) });
    let mut objs: Vec<Selectable> = vec![];
    selection_system(&mut sel, Some(pt(5, 5)), false, &mut objs, &vec![]);
    assert_eq!(sel, Selection::Hover(None));
}

#[test]
fn hover_picks_first() {
    assert_eq!(pick_hover(&scene(), &pt(9, 9)), Some(1));
    assert_eq!(pick_hover(&scene(), &pt(-6, 0)), None);
}

#[test]
fn resolve_drag_clears_unprojected() {
    let rects = vec![None, rect(0, 0, 1, 1)];
    let mut objs = vec![Selectable { is_selected: true }; 2];
    resolve_drag(&mut objs, &rects, &pt(0, 0), &pt(1, 1));
    assert_eq!(flags(&objs), vec![false, true]);
}

#[test]
fn overlay_shown_while_dragging() {
    let sel = Selection::OnGoing(SelectionPending { begin_pos_ui: pt(8, 1), end_pos_ui: pt(2, 5) });
    assert_eq!(
        selection_ui_rect_data_update(&sel),
        Some(SelectionRectScreen { min: pt(2, 1), max: pt(8, 5) })
    );
}

#[test]
fn overlay_hidden_while_hovering() {
    assert_eq!(selection_ui_rect_data_update(&Selection::Hover(Some(3))), None);
}

#[test]
fn highlight_follows_parent() {
    let mut visible = false;
    selection_ui_visual_toggle(&mut visible, Some(&Selectable { is_selected: true }));
    assert!(visible);
    selection_ui_visual_toggle(&mut visible, Some(&Selectable { is_selected: false }));
    assert!(!visible);
    visible = true;
    selection_ui_visual_toggle(&mut visible, None);
    assert!(visible);
}
