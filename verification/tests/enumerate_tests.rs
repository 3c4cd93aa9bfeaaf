use v4l2_capture::enumerate::{filter_supported_formats, Enumeration};
use v4l2_capture::format::{PIX_FMT_MJPEG, PIX_FMT_NV12, PIX_FMT_YUYV};

/// A simulated device table: a query inside the table answers the
/// entry, a query past it answers "index out of range".
fn query(table: &[u32], index: u32) -> Option<u32> {
    table.get(index as usize).copied()
}

#[test]
fn enumerating_three_entries_yields_three_and_stops() {
    let table = [PIX_FMT_YUYV, PIX_FMT_MJPEG, PIX_FMT_NV12];
    let mut walk: Enumeration<u32> = Enumeration::new();
    let mut queries = 0usize;
    while let Some(index) = walk.pending_index() {
        // a runaway enumerator would spin forever; the index rises by
        // one per entry, so four queries settle a three-entry table
        queries += 1;
        assert!(queries <= table.len() + 1);
        match query(&table, index) {
            Some(entry) => walk.on_entry(entry),
            None => walk.on_end(),
        }
    }
    assert_eq!(queries, 4);
    assert_eq!(walk.count(), 3);
    assert_eq!(walk.into_entries(), vec![PIX_FMT_YUYV, PIX_FMT_MJPEG, PIX_FMT_NV12]);
}

#[test]
fn enumerating_empty_table_stops_at_once() {
    let mut walk: Enumeration<u32> = Enumeration::new();
    assert_eq!(walk.pending_index(), Some(0));
    walk.on_end();
    assert_eq!(walk.pending_index(), None);
    assert_eq!(walk.count(), 0);
}

#[test]
fn enumeration_indices_rise_by_one() {
    let mut walk: Enumeration<(u32, u32)> = Enumeration::new();
    assert_eq!(walk.pending_index(), Some(0));
    walk.on_entry((640, 480));
    assert_eq!(walk.pending_index(), Some(1));
    walk.on_entry((1280, 720));
    assert_eq!(walk.pending_index(), Some(2));
    walk.on_end();
    assert_eq!(walk.pending_index(), None);
    assert_eq!(walk.into_entries(), vec![(640, 480), (1280, 720)]);
}

#[test]
fn listing_keeps_only_supported_formats() {
    let formats = vec![PIX_FMT_MJPEG, PIX_FMT_YUYV, PIX_FMT_NV12, PIX_FMT_YUYV];
    assert_eq!(
        filter_supported_formats(&formats),
        vec![PIX_FMT_YUYV, PIX_FMT_YUYV]
    );
    let none = vec![PIX_FMT_MJPEG, PIX_FMT_NV12];
    assert_eq!(filter_supported_formats(&none), Vec::<u32>::new());
}
