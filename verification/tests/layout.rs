use todo_progress::geometry::{compute_chunks, is_inside, split_row, Rect, TITLE_WIDTH};
use todo_progress::hit::{hit, HitResult};

fn screen(width: u16, height: u16) -> Rect {
    Rect::new(0, 0, width, height)
}

#[test]
fn rect_new_keeps_fields() {
    let r = Rect::new(3, 4, 5, 6);
    assert_eq!((r.x, r.y, r.width, r.height), (3, 4, 5, 6));
}

#[test]
fn inner_takes_one_cell_on_every_side() {
    assert_eq!(screen(80, 24).inner(), Rect::new(1, 1, 78, 22));
    assert_eq!(Rect::new(5, 7, 2, 2).inner(), Rect::new(6, 8, 0, 0));
    assert_eq!(Rect::new(5, 7, 1, 10).inner(), Rect::new(5, 7, 0, 0));
}

#[test]
fn layout_has_one_row_per_entry_and_one_for_the_button() {
    let chunks = compute_chunks(screen(80, 24), 2);
    assert_eq!(
        chunks,
        vec![Rect::new(1, 1, 78, 1), Rect::new(1, 2, 78, 1), Rect::new(1, 3, 78, 1)]
    );
}

#[test]
fn layout_of_empty_list_is_the_button_alone() {
    let chunks = compute_chunks(screen(40, 10), 0);
    assert_eq!(chunks, vec![Rect::new(1, 1, 38, 1)]);
}

#[test]
fn layout_rows_are_stacked_and_disjoint() {
    let chunks = compute_chunks(screen(100, 50), 20);
    assert_eq!(chunks.len(), 21);
    for i in 0..chunks.len() {
        assert_eq!(chunks[i].height, 1);
        assert_eq!(chunks[i].y, 1 + i as u16);
        if i > 0 {
            assert!(chunks[i - 1].y + chunks[i - 1].height <= chunks[i].y);
        }
    }
}

#[test]
fn rows_past_the_screen_are_empty() {
    let chunks = compute_chunks(screen(80, 4), 3);
    assert_eq!(chunks.len(), 4);
    assert_eq!(chunks[0], Rect::new(1, 1, 78, 1));
    assert_eq!(chunks[1], Rect::new(1, 2, 78, 1));
    assert_eq!(chunks[2], Rect::new(1, 3, 78, 0));
    assert_eq!(chunks[3], Rect::new(1, 3, 78, 0));
    assert_eq!(hit((5, 3), &chunks, 3), HitResult::Miss);
}

#[test]
fn layout_of_a_screen_without_room_is_empty_rows() {
    let chunks = compute_chunks(screen(1, 1), 1);
    assert_eq!(chunks, vec![Rect::new(0, 0, 0, 0), Rect::new(0, 0, 0, 0)]);
}

#[test]
fn split_gives_the_title_thirty_columns() {
    assert_eq!(TITLE_WIDTH, 30);
    let (title, bar) = split_row(Rect::new(1, 1, 78, 1));
    assert_eq!(title, Rect::new(1, 1, 30, 1));
    assert_eq!(bar, Rect::new(31, 1, 48, 1));
}

#[test]
fn split_of_a_narrow_row_keeps_one_column_for_the_bar() {
    let (title, bar) = split_row(Rect::new(1, 1, 10, 1));
    assert_eq!(title, Rect::new(1, 1, 9, 1));
    assert_eq!(bar, Rect::new(10, 1, 1, 1));
    let (title, bar) = split_row(Rect::new(1, 1, 30, 1));
    assert_eq!(title, Rect::new(1, 1, 29, 1));
    assert_eq!(bar, Rect::new(30, 1, 1, 1));
    let (title, bar) = split_row(Rect::new(1, 1, 31, 1));
    assert_eq!(title, Rect::new(1, 1, 30, 1));
    assert_eq!(bar, Rect::new(31, 1, 1, 1));
    let (title, bar) = split_row(Rect::new(4, 2, 0, 1));
    assert_eq!(title, Rect::new(4, 2, 0, 1));
    assert_eq!(bar, Rect::new(4, 2, 0, 1));
}

#[test]
fn inside_is_half_open() {
    let area = Rect::new(2, 3, 4, 1);
    assert!(is_inside((2, 3), area));
    assert!(is_inside((5, 3), area));
    assert!(!is_inside((6, 3), area));
    assert!(!is_inside((1, 3), area));
    assert!(!is_inside((2, 4), area));
    assert!(!is_inside((2, 2), area));
    assert!(!is_inside((0, 0), Rect::new(0, 0, 0, 0)));
}

#[test]
fn inside_does_not_wrap_at_the_edge_of_the_grid() {
    let area = Rect::new(65535, 65535, 10, 10);
    assert!(is_inside((65535, 65535), area));
    assert!(!is_inside((0, 0), area));
}

#[test]
fn hit_tells_title_bar_and_button_apart() {
    let chunks = compute_chunks(screen(80, 24), 2);
    assert_eq!(hit((1, 1), &chunks, 2), HitResult::Title(0));
    assert_eq!(hit((30, 1), &chunks, 2), HitResult::Title(0));
    assert_eq!(hit((31, 1), &chunks, 2), HitResult::Bar(0));
    assert_eq!(hit((78, 2), &chunks, 2), HitResult::Bar(1));
    assert_eq!(hit((79, 2), &chunks, 2), HitResult::Miss);
    assert_eq!(hit((40, 3), &chunks, 2), HitResult::Add);
    assert_eq!(hit((40, 4), &chunks, 2), HitResult::Miss);
    assert_eq!(hit((0, 0), &chunks, 2), HitResult::Miss);
}

#[test]
fn hit_of_region_centers() {
    let count: usize = 5;
    let chunks = compute_chunks(screen(90, 30), count);
    for i in 0..count {
        let (title, bar) = split_row(chunks[i]);
        let title_center = (title.x + title.width / 2, title.y + title.height / 2);
        let bar_center = (bar.x + bar.width / 2, bar.y + bar.height / 2);
        assert_eq!(hit(title_center, &chunks, count), HitResult::Title(i));
        assert_eq!(hit(bar_center, &chunks, count), HitResult::Bar(i));
    }
    let add = chunks[count];
    let add_center = (add.x + add.width / 2, add.y + add.height / 2);
    assert_eq!(hit(add_center, &chunks, count), HitResult::Add);
}

#[test]
fn hit_takes_the_first_row_that_holds_the_cell() {
    let chunks = vec![Rect::new(0, 0, 40, 2), Rect::new(0, 1, 40, 1), Rect::new(0, 2, 40, 1)];
    assert_eq!(hit((35, 1), &chunks, 2), HitResult::Bar(0));
    assert_eq!(hit((3, 2), &chunks, 2), HitResult::Add);
}

#[test]
fn hit_on_a_short_layout_misses() {
    let chunks = vec![Rect::new(0, 0, 40, 1)];
    assert_eq!(hit((3, 0), &chunks, 1), HitResult::Title(0));
    assert_eq!(hit((3, 0), &chunks, 3), HitResult::Title(0));
    assert_eq!(hit((3, 1), &chunks, 3), HitResult::Miss);
    assert_eq!(hit((3, 0), &chunks, 0), HitResult::Add);
}
