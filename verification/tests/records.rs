use soundboard::records::{id_from_column, Guild, NotFoundError, Playback, Sound};

#[test]
fn identifier_keeps_its_bits() {
    assert_eq!(id_from_column(0), 0);
    assert_eq!(id_from_column(42), 42);
    assert_eq!(id_from_column(i64::MAX), 9_223_372_036_854_775_807);
    assert_eq!(id_from_column(-1), u64::MAX);
    assert_eq!(id_from_column(i64::MIN), 9_223_372_036_854_775_808);
}

#[test]
fn guild_from_columns() {
    assert_eq!(Guild::from_columns(123_456_789), Guild { id: 123_456_789 });
    assert_eq!(Guild::from_columns(-2).id, u64::MAX - 1);
}

#[test]
fn sound_from_columns() {
    let sound = Sound::from_columns(
        4,
        900,
        String::from("airhorn"),
        String::from("https://example.org/airhorn"),
        -1,
        1_250,
    );
    assert_eq!(sound.id, 4);
    assert_eq!(sound.guild_id, 900);
    assert_eq!(sound.name, "airhorn");
    assert_eq!(sound.source, "https://example.org/airhorn");
    assert_eq!(sound.uploader_id, u64::MAX);
    assert_eq!(sound.length, 1_250);
}

#[test]
fn playback_from_columns() {
    let open = Playback::from_columns(7, 1_000, None, 4, 300, None);
    assert_eq!(
        open,
        Playback {
            id: 7,
            started_at: 1_000,
            stopped_at: None,
            sound_id: 4,
            player_id: 300,
            stopper_id: None,
        }
    );
    assert!(open.is_open());
    let closed = Playback::from_columns(8, 1_000, Some(4_000), 4, 300, Some(-1));
    assert_eq!(closed.stopper_id, Some(u64::MAX));
    assert_eq!(closed.stopped_at, Some(4_000));
    assert!(!closed.is_open());
}

#[test]
fn new_record_is_open() {
    let record = Playback::open(7, 4, 300, 1_000);
    assert!(record.is_open());
    assert_eq!(record.id, 7);
    assert_eq!(record.sound_id, 4);
    assert_eq!(record.player_id, 300);
    assert_eq!(record.started_at, 1_000);
    assert_eq!(record.stopped_at, None);
    assert_eq!(record.stopper_id, None);
    assert_eq!(record.elapsed_millis(), None);
}

#[test]
fn record_closes_once() {
    let mut record = Playback::open(7, 4, 300, 1_000);
    assert_eq!(record.close(3_500, Some(301)), Ok(()));
    assert!(!record.is_open());
    assert_eq!(record.stopped_at, Some(3_500));
    assert_eq!(record.stopper_id, Some(301));
    let closed = record;
    assert_eq!(record.close(9_000, Some(999)), Err(NotFoundError { record: 7 }));
    assert_eq!(record, closed);
}

#[test]
fn record_closes_without_stopper_at_natural_end() {
    let mut record = Playback::open(9, 4, 300, 1_000);
    assert_eq!(record.close(2_000, None), Ok(()));
    assert_eq!(record.stopped_at, Some(2_000));
    assert_eq!(record.stopper_id, None);
    assert_eq!(record.close(2_100, Some(5)), Err(NotFoundError { record: 9 }));
    assert_eq!(record.stopper_id, None);
}

#[test]
fn elapsed_time_is_the_difference() {
    let mut record = Playback::open(1, 1, 1, 1_000_000);
    record.close(2_500_000, None).unwrap();
    assert_eq!(record.elapsed_millis(), Some(1_500));
    let backwards = Playback::from_columns(2, 5_000_000, Some(4_000_000), 1, 1, None);
    assert_eq!(backwards.elapsed_millis(), Some(-1_000));
    let at_once = Playback::from_columns(2, 77, Some(77), 1, 1, None);
    assert_eq!(at_once.elapsed_millis(), Some(0));
}

#[test]
fn elapsed_time_drops_the_part_of_a_millisecond() {
    let span = |started_at: i64, stopped_at: i64| {
        Playback::from_columns(3, started_at, Some(stopped_at), 1, 1, None).elapsed_millis()
    };
    assert_eq!(span(0, 999), Some(0));
    assert_eq!(span(0, 1_000), Some(1));
    assert_eq!(span(0, 1_999), Some(1));
    assert_eq!(span(999, 0), Some(0));
    assert_eq!(span(1_000, 0), Some(-1));
    assert_eq!(span(1_999, 0), Some(-1));
    assert_eq!(span(900, 1_000_100), Some(999));
}

#[test]
fn elapsed_time_of_the_widest_spans() {
    let forwards = Playback::from_columns(3, i64::MIN, Some(i64::MAX), 1, 1, None);
    assert_eq!(forwards.elapsed_millis(), Some(18_446_744_073_709_551));
    let backwards = Playback::from_columns(3, i64::MAX, Some(i64::MIN), 1, 1, None);
    assert_eq!(backwards.elapsed_millis(), Some(-18_446_744_073_709_551));
}
