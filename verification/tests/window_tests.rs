use time_window::create_time_point_from_string;
use time_window::TimePoint;
use time_window::TimeWindow;
use time_window::TimeWindowError;

fn create_time_from(datetime: &str) -> TimePoint {
    create_time_point_from_string(datetime).unwrap()
}

#[test]
fn given_right_edge_of_window_then_returns_1() {
    let mut day = TimeWindow::new(
        create_time_from("2023-01-01 00:00:00"),
        create_time_from("2023-01-02 00:00:00"),
    );
    day.set_point(create_time_from("2023-01-02 00:00:00")).unwrap();

    assert_eq!(1.0, day.percentage_permille as f64 / 1000.0);
}

#[test]
fn given_left_edge_of_window_then_returns_0() {
    let mut day = TimeWindow::new(
        create_time_from("2023-01-01 00:00:00"),
        create_time_from("2023-01-02 00:00:00"),
    );
    day.set_point(create_time_from("2023-01-01 00:00:00")).unwrap();

    assert_eq!(0.0, day.percentage_permille as f64 / 1000.0);
}

#[test]
fn given_middle_of_window_then_returns_half() {
    let mut day = TimeWindow::new(
        create_time_from("2023-01-01 00:00:00"),
        create_time_from("2023-01-02 00:00:00"),
    );
    day.set_point(create_time_from("2023-01-01 12:00:00")).unwrap();

    assert_eq!(0.5, day.percentage_permille as f64 / 1000.0);
}

#[test]
fn given_arbitrary_point_in_window_then_returns_correct_value() {
    let mut day = TimeWindow::new(
        create_time_from("2023-01-01 00:00:00"),
        create_time_from("2023-01-02 00:00:00"),
    );
    day.set_point(create_time_from("2023-01-01 13:31:45")).unwrap();

    assert_eq!(0.564, day.percentage_permille as f64 / 1000.0);
}

#[test]
fn given_point_in_window_when_left_days_then_returns_correct_value() {
    let mut window = TimeWindow::new(
        create_time_from("2023-01-01 00:00:00"),
        create_time_from("2023-01-05 00:00:00"),
    );
    window.set_point(create_time_from("2023-01-02 13:31:45")).unwrap();

    assert_eq!(2.436284722222222, window.left_millis as f64 / 86_400_000.0);
}

#[test]
fn parsing_yields_the_epoch_millisecond_count() {
    assert_eq!(0, create_time_from("1970-01-01 00:00:00").millis);
    assert_eq!(1_672_531_200_000, create_time_from("2023-01-01 00:00:00").millis);
    assert_eq!(1_672_579_905_000, create_time_from("2023-01-01 13:31:45").millis);
}

#[test]
fn parsing_rejects_text_off_the_pattern() {
    assert!(create_time_point_from_string("not a date").is_none());
    assert!(create_time_point_from_string("2023-01-01").is_none());
    assert!(create_time_point_from_string("2023-01-01 24:00:00").is_none());
    assert!(create_time_point_from_string("2023-13-01 00:00:00").is_none());
}

#[test]
fn new_window_has_zero_derived_fields() {
    let w = TimeWindow::new(TimePoint { millis: 5 }, TimePoint { millis: 9 });
    assert_eq!(0, w.total_millis);
    assert_eq!(0, w.passed_millis);
    assert_eq!(0, w.left_millis);
    assert_eq!(0, w.percentage_permille);
    assert!(w.probe.is_none());
}

#[test]
fn zero_length_window_rejects_every_probe() {
    let t = TimePoint { millis: 1_000 };
    let mut w = TimeWindow::new(t, t);
    assert_eq!(Err(TimeWindowError::ZeroLengthWindow), w.set_point(t));
    assert_eq!(0, w.total_millis);
    assert_eq!(0, w.percentage_permille);
}

#[test]
fn inverted_window_rejects_every_probe() {
    let mut w = TimeWindow::new(TimePoint { millis: 2_000 }, TimePoint { millis: 1_000 });
    assert_eq!(
        Err(TimeWindowError::InvertedWindow),
        w.set_point(TimePoint { millis: 1_500 })
    );
}

#[test]
fn probe_outside_window_is_rejected_and_fields_kept() {
    let mut w = TimeWindow::new(TimePoint { millis: 0 }, TimePoint { millis: 1_000_000 });
    w.set_point(TimePoint { millis: 564_200 }).unwrap();
    assert_eq!(
        Err(TimeWindowError::ProbeOutOfWindow),
        w.set_point(TimePoint { millis: 1_000_001 })
    );
    assert_eq!(
        Err(TimeWindowError::ProbeOutOfWindow),
        w.set_point(TimePoint { millis: -1 })
    );
    assert_eq!(Some(TimePoint { millis: 564_200 }), w.probe);
    assert_eq!(1_000_000, w.total_millis);
    assert_eq!(564_200, w.passed_millis);
    assert_eq!(435_800, w.left_millis);
    assert_eq!(564, w.percentage_permille);
}

#[test]
fn setting_the_same_probe_twice_yields_identical_fields() {
    let mut w = TimeWindow::new(
        create_time_from("2023-01-01 00:00:00"),
        create_time_from("2023-01-02 00:00:00"),
    );
    let probe = create_time_from("2023-01-01 13:31:45");
    w.set_point(probe).unwrap();
    let first = (w.total_millis, w.passed_millis, w.left_millis, w.percentage_permille);
    w.set_point(probe).unwrap();
    let second = (w.total_millis, w.passed_millis, w.left_millis, w.percentage_permille);
    assert_eq!(first, second);
}

#[test]
fn probes_with_the_same_rounded_ratio_show_the_same_percentage() {
    let start = TimePoint { millis: 0 };
    let end = TimePoint { millis: 1_000_000 };
    let mut w1 = TimeWindow::new(start, end);
    let mut w2 = TimeWindow::new(start, end);
    w1.set_point(TimePoint { millis: 564_200 }).unwrap();
    w2.set_point(TimePoint { millis: 564_400 }).unwrap();
    assert_eq!(564, w1.percentage_permille);
    assert_eq!(w1.percentage_permille, w2.percentage_permille);
}

#[test]
fn midpoint_of_another_window_shows_half() {
    let mut w = TimeWindow::new(TimePoint { millis: -3_000 }, TimePoint { millis: 5_000 });
    w.set_point(TimePoint { millis: 1_000 }).unwrap();
    assert_eq!(500, w.percentage_permille);
}

#[test]
fn rounding_is_half_away_from_zero_on_the_scaled_ratio() {
    assert_eq!(564, time_window::round_permille(48_705_000, 86_400_000));
    assert_eq!(1, time_window::round_permille(1, 2_000));
    assert_eq!(0, time_window::round_permille(0, 7));
    assert_eq!(1000, time_window::round_permille(7, 7));
    assert_eq!(333, time_window::round_permille(1, 3));
    assert_eq!(667, time_window::round_permille(2, 3));
}
