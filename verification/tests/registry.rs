use vibewm::config::SnapPosition;
use vibewm::geometry::{Point, Rectangle, Size};
use vibewm::window::{Direction, Window, WindowManager};

fn window(handle: u64) -> Window {
    Window::new(handle, Some(Point { x: 0, y: 0 }), Size { w: 640, h: 480 })
}

fn registry_of(handles: &[u64]) -> WindowManager {
    let mut registry = WindowManager::new();
    for handle in handles {
        registry.add(window(*handle));
    }
    registry
}

fn handles(registry: &WindowManager) -> Vec<u64> {
    registry.all().iter().map(|w| w.handle).collect()
}

fn ids(registry: &WindowManager) -> Vec<u64> {
    registry.metadata().iter().map(|m| m.id).collect()
}

fn focused_handle(registry: &WindowManager) -> Option<u64> {
    registry.focused().map(|w| w.handle)
}

#[test]
fn new_registry_is_empty() {
    let registry = WindowManager::new();
    assert!(registry.is_empty());
    assert_eq!(registry.len(), 0);
    assert_eq!(registry.focused_index(), None);
    assert!(registry.focused().is_none());
}

#[test]
fn add_puts_window_on_top_and_focuses_it() {
    let mut registry = WindowManager::new();
    registry.add(window(7));
    assert_eq!(registry.focused_index(), Some(0));
    registry.add(window(9));
    registry.add(window(8));
    assert_eq!(handles(&registry), vec![7, 9, 8]);
    assert_eq!(registry.focused_index(), Some(2));
    assert_eq!(focused_handle(&registry), Some(8));
    assert_eq!(registry.len(), 3);
    assert!(!registry.is_empty());
}

#[test]
fn add_gives_growing_ids() {
    let mut registry = registry_of(&[5, 6, 7]);
    assert_eq!(ids(&registry), vec![0, 1, 2]);
    assert_eq!(registry.next_id(), 3);
    registry.remove(&window(6));
    registry.add(window(6));
    assert_eq!(ids(&registry), vec![0, 2, 3]);
    assert_eq!(registry.next_id(), 4);
    assert_eq!(registry.metadata()[2].pre_snap_geometry, None);
    assert_eq!(registry.metadata()[2].snap_state, None);
    assert_eq!(registry.focused_meta().map(|m| m.id), Some(3));
}

#[test]
fn every_window_keeps_its_record() {
    let mut registry = registry_of(&[10, 11, 12, 13]);
    registry.focus_next();
    registry.record_snap(None, SnapPosition::Left);
    registry.raise_focused();
    assert_eq!(handles(&registry), vec![11, 12, 13, 10]);
    assert_eq!(ids(&registry), vec![1, 2, 3, 0]);
    assert_eq!(registry.focused_meta().unwrap().snap_state, Some(SnapPosition::Left));
    registry.remove(&window(12));
    assert_eq!(handles(&registry), vec![11, 13, 10]);
    assert_eq!(ids(&registry), vec![1, 3, 0]);
    registry.refresh(&Window { alive: false, ..window(11) });
    registry.cleanup_closed();
    assert_eq!(handles(&registry), vec![13, 10]);
    assert_eq!(ids(&registry), vec![3, 0]);
    assert_eq!(registry.metadata()[1].snap_state, Some(SnapPosition::Left));
    assert_eq!(registry.metadata()[0].snap_state, None);
}

#[test]
fn record_snap_writes_the_record_of_the_focused_window() {
    let mut registry = registry_of(&[1, 2]);
    let prior = Rectangle { loc: Point { x: 3, y: 4 }, size: Size { w: 5, h: 6 } };
    registry.record_snap(Some(prior), SnapPosition::TopRight);
    let meta = registry.focused_meta().unwrap();
    assert_eq!(meta.id, 1);
    assert_eq!(meta.pre_snap_geometry, Some(prior));
    assert_eq!(meta.snap_state, Some(SnapPosition::TopRight));
    assert_eq!(registry.metadata()[0].snap_state, None);
    let mut empty = WindowManager::new();
    empty.record_snap(Some(prior), SnapPosition::Center);
    assert!(empty.metadata().is_empty());
    assert_eq!(empty.focused_meta(), None);
}

#[test]
fn refresh_takes_the_report_of_the_window_it_names() {
    let mut registry = registry_of(&[1, 2, 3]);
    let report = Window {
        handle: 2,
        location: None,
        size: Size { w: 7, h: 8 },
        alive: false,
    };
    registry.refresh(&report);
    assert_eq!(registry.all()[1], report);
    assert_eq!(registry.all()[0], window(1));
    assert_eq!(registry.all()[2], window(3));
    assert_eq!(ids(&registry), vec![0, 1, 2]);
    assert_eq!(registry.focused_index(), Some(2));
    registry.refresh(&Window { handle: 9, ..report });
    assert_eq!(registry.all()[0], window(1));
}

#[test]
fn removing_a_window_that_is_not_focused_keeps_the_focus_on_its_window() {
    for focused in 0..4usize {
        for removed in 0..4usize {
            if focused == removed {
                continue;
            }
            let mut registry = registry_of(&[10, 11, 12, 13]);
            while registry.focused_index() != Some(focused) {
                registry.focus_next();
            }
            let before = focused_handle(&registry);
            registry.remove(&window(10 + removed as u64));
            assert_eq!(registry.len(), 3);
            assert_eq!(focused_handle(&registry), before);
        }
    }
}

#[test]
fn removing_below_the_focus_moves_the_index_down() {
    let mut registry = registry_of(&[1, 2, 3]);
    registry.focus_prev();
    assert_eq!(registry.focused_index(), Some(1));
    registry.remove(&window(1));
    assert_eq!(registry.focused_index(), Some(0));
    assert_eq!(focused_handle(&registry), Some(2));
}

#[test]
fn removing_above_the_focus_leaves_the_index() {
    let mut registry = registry_of(&[1, 2, 3]);
    registry.focus_prev();
    registry.remove(&window(3));
    assert_eq!(registry.focused_index(), Some(1));
    assert_eq!(focused_handle(&registry), Some(2));
}

#[test]
fn removing_the_focused_top_focuses_the_new_top() {
    let mut registry = registry_of(&[1, 2, 3]);
    registry.remove(&window(3));
    assert_eq!(registry.focused_index(), Some(1));
    assert_eq!(focused_handle(&registry), Some(2));
}

#[test]
fn removing_the_focused_window_in_the_middle_focuses_the_next_one_up() {
    let mut registry = registry_of(&[1, 2, 3]);
    registry.focus_prev();
    registry.remove(&window(2));
    assert_eq!(handles(&registry), vec![1, 3]);
    assert_eq!(registry.focused_index(), Some(1));
    assert_eq!(focused_handle(&registry), Some(3));
}

#[test]
fn removing_the_last_window_clears_the_focus() {
    let mut registry = registry_of(&[4]);
    registry.remove(&window(4));
    assert!(registry.is_empty());
    assert_eq!(registry.focused_index(), None);
}

#[test]
fn removing_an_unknown_window_changes_nothing() {
    let mut registry = registry_of(&[1, 2, 3]);
    registry.remove(&window(99));
    assert_eq!(handles(&registry), vec![1, 2, 3]);
    assert_eq!(registry.focused_index(), Some(2));
}

#[test]
fn remove_goes_by_the_handle_alone() {
    let mut registry = registry_of(&[1, 2]);
    let other = Window::new(1, None, Size { w: 1, h: 1 });
    registry.remove(&other);
    assert_eq!(handles(&registry), vec![2]);
}

#[test]
fn remove_takes_the_lowest_of_two_windows_of_one_handle() {
    let mut registry = registry_of(&[1, 2, 1]);
    registry.remove(&window(1));
    assert_eq!(handles(&registry), vec![2, 1]);
    assert_eq!(ids(&registry), vec![1, 2]);
}

#[test]
fn focus_next_goes_round_the_stack() {
    let mut registry = registry_of(&[1, 2, 3]);
    assert_eq!(registry.focused_index(), Some(2));
    registry.focus_next();
    assert_eq!(registry.focused_index(), Some(0));
    registry.focus_next();
    assert_eq!(registry.focused_index(), Some(1));
    registry.focus_next();
    assert_eq!(registry.focused_index(), Some(2));
}

#[test]
fn as_many_steps_as_windows_lead_back_to_the_start() {
    for n in 1..6u64 {
        let all: Vec<u64> = (0..n).collect();
        for start in 0..n as usize {
            let mut registry = registry_of(&all);
            while registry.focused_index() != Some(start) {
                registry.focus_next();
            }
            for _ in 0..n {
                registry.focus_next();
            }
            assert_eq!(registry.focused_index(), Some(start));
        }
    }
}

#[test]
fn focus_prev_goes_round_the_stack() {
    let mut registry = registry_of(&[1, 2, 3]);
    registry.focus_prev();
    assert_eq!(registry.focused_index(), Some(1));
    registry.focus_prev();
    assert_eq!(registry.focused_index(), Some(0));
    registry.focus_prev();
    assert_eq!(registry.focused_index(), Some(2));
}

#[test]
fn focus_steps_on_an_empty_stack_do_nothing() {
    let mut registry = WindowManager::new();
    registry.focus_next();
    assert_eq!(registry.focused_index(), None);
    registry.focus_prev();
    assert_eq!(registry.focused_index(), None);
    registry.raise_focused();
    registry.cleanup_closed();
    assert!(registry.is_empty());
}

#[test]
fn raise_focused_moves_the_window_to_the_top() {
    let mut registry = registry_of(&[1, 2, 3]);
    registry.focus_next();
    registry.raise_focused();
    assert_eq!(handles(&registry), vec![2, 3, 1]);
    assert_eq!(registry.focused_index(), Some(2));
    registry.raise_focused();
    assert_eq!(handles(&registry), vec![2, 3, 1]);
    assert_eq!(registry.focused_index(), Some(2));
}

#[test]
fn focused_mut_changes_the_focused_window_in_place() {
    let mut registry = registry_of(&[1, 2, 3]);
    registry.focus_prev();
    if let Some(w) = registry.focused_mut() {
        w.size = Size { w: 10, h: 20 };
        w.alive = false;
    }
    assert_eq!(registry.all()[1].size, Size { w: 10, h: 20 });
    assert!(!registry.all()[1].alive);
    assert!(registry.all()[0].alive);
    assert_eq!(registry.focused_index(), Some(1));
}

#[test]
fn cleanup_closed_drops_the_dead_windows() {
    let mut registry = registry_of(&[1, 2, 3, 4]);
    registry.focus_next();
    registry.focused_mut().unwrap().alive = false;
    registry.focus_next();
    registry.focus_next();
    registry.focused_mut().unwrap().alive = false;
    registry.focus_prev();
    assert_eq!(registry.focused_index(), Some(1));
    assert_eq!(focused_handle(&registry), Some(2));
    registry.cleanup_closed();
    assert_eq!(handles(&registry), vec![2, 4]);
    assert_eq!(registry.focused_index(), Some(0));
    assert_eq!(focused_handle(&registry), Some(2));
}

#[test]
fn cleanup_closed_keeps_the_focus_on_a_living_window() {
    for focused in 0..5usize {
        for dead in 0..32u32 {
            if dead & (1 << focused) != 0 {
                continue;
            }
            let mut registry = registry_of(&[10, 11, 12, 13, 14]);
            for i in 0..5u64 {
                if dead & (1 << i) != 0 {
                    registry.refresh(&Window { alive: false, ..window(10 + i) });
                }
            }
            while registry.focused_index() != Some(focused) {
                registry.focus_next();
            }
            let id = registry.focused_meta().unwrap().id;
            registry.cleanup_closed();
            assert_eq!(registry.len(), 5 - dead.count_ones() as usize);
            assert_eq!(focused_handle(&registry), Some(10 + focused as u64));
            assert_eq!(registry.focused_meta().unwrap().id, id);
            assert_eq!(registry.focused_index(), Some(focused - (dead & ((1 << focused) - 1)).count_ones() as usize));
        }
    }
}

#[test]
fn cleanup_closed_is_as_removing_the_dead_windows_one_by_one() {
    for focused in 0..4usize {
        for dead in 0..16u32 {
            let mut cleaned = registry_of(&[10, 11, 12, 13]);
            let mut removed = registry_of(&[10, 11, 12, 13]);
            while cleaned.focused_index() != Some(focused) {
                cleaned.focus_next();
                removed.focus_next();
            }
            for i in 0..4u64 {
                if dead & (1 << i) != 0 {
                    cleaned.refresh(&Window { alive: false, ..window(10 + i) });
                }
            }
            for i in (0..4u64).rev() {
                if dead & (1 << i) != 0 {
                    removed.remove(&window(10 + i));
                }
            }
            cleaned.cleanup_closed();
            assert_eq!(handles(&cleaned), handles(&removed));
            assert_eq!(ids(&cleaned), ids(&removed));
            assert_eq!(cleaned.focused_index(), removed.focused_index());
        }
    }
}

#[test]
fn cleanup_closed_hands_the_focus_of_a_dead_window_to_the_next_one_up() {
    let mut registry = registry_of(&[1, 2, 3, 4]);
    registry.focus_next();
    registry.focused_mut().unwrap().alive = false;
    registry.focus_next();
    registry.focused_mut().unwrap().alive = false;
    assert_eq!(focused_handle(&registry), Some(2));
    registry.cleanup_closed();
    assert_eq!(handles(&registry), vec![3, 4]);
    assert_eq!(registry.focused_index(), Some(0));
    assert_eq!(focused_handle(&registry), Some(3));
}

#[test]
fn cleanup_closed_moves_a_focus_past_the_end_to_the_top() {
    let mut registry = registry_of(&[1, 2, 3]);
    registry.focused_mut().unwrap().alive = false;
    registry.cleanup_closed();
    assert_eq!(handles(&registry), vec![1, 2]);
    assert_eq!(registry.focused_index(), Some(1));
}

#[test]
fn cleanup_closed_of_all_windows_clears_the_focus() {
    let mut registry = registry_of(&[1]);
    registry.focused_mut().unwrap().alive = false;
    registry.cleanup_closed();
    assert!(registry.is_empty());
    assert_eq!(registry.focused_index(), None);
}

#[test]
fn directions_give_their_deltas() {
    assert_eq!(Direction::Up.to_delta(50), Point { x: 0, y: -50 });
    assert_eq!(Direction::Down.to_delta(50), Point { x: 0, y: 50 });
    assert_eq!(Direction::Left.to_delta(50), Point { x: -50, y: 0 });
    assert_eq!(Direction::Right.to_delta(50), Point { x: 50, y: 0 });
    assert_eq!(Direction::Up.to_size_delta(30), (0, -30));
    assert_eq!(Direction::Down.to_size_delta(30), (0, 30));
    assert_eq!(Direction::Left.to_size_delta(30), (-30, 0));
    assert_eq!(Direction::Right.to_size_delta(30), (30, 0));
}
