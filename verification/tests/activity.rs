use how_active::activity::{aggregate, tally, HourHistogram};
use how_active::discord::{Message, User};

fn at(timestamp: &str) -> Message {
    Message {
        id: String::from("1"),
        author: User {
            id: String::from("2"),
            username: String::from("ann"),
            discriminator: String::from("0001"),
        },
        timestamp: String::from(timestamp),
        edited_timestamp: None,
        content: String::new(),
    }
}

fn own_sum(histogram: &HourHistogram) -> u64 {
    histogram.counts().iter().sum()
}

#[test]
fn tally_counts_each_hour() {
    let histogram = tally(&vec![Some(0), Some(23), Some(5), Some(5), None, Some(0), Some(5)]);
    let mut expected = [0u64; 24];
    expected[0] = 2;
    expected[5] = 3;
    expected[23] = 1;
    assert_eq!(histogram.counts(), expected);
    assert_eq!(histogram.count(5), 3);
    assert_eq!(histogram.count(6), 0);
    assert_eq!(histogram.sum(), 6);
}

#[test]
fn tally_of_nothing_is_all_zero() {
    let histogram = tally(&vec![]);
    assert_eq!(histogram.counts(), [0u64; 24]);
    assert_eq!(histogram.sum(), 0);
    let nothing_parsed = tally(&vec![None, None]);
    assert_eq!(nothing_parsed.counts(), [0u64; 24]);
}

#[test]
fn tally_leaves_out_what_is_no_hour_of_day() {
    let histogram = tally(&vec![Some(24), Some(25), Some(u32::MAX), Some(23)]);
    assert_eq!(histogram.sum(), 1);
    assert_eq!(histogram.count(23), 1);
    assert_eq!(histogram.count(24), 0);
    assert_eq!(histogram.count(u32::MAX), 0);
}

#[test]
fn aggregate_buckets_by_the_hour_of_the_timestamp() {
    let messages = vec![
        at("2022-01-02T03:04:05+00:00"),
        at("2022-01-02T03:59:59.999000+00:00"),
        at("2021-12-31T23:00:00Z"),
        at("2020-02-29T00:00:00+00:00"),
        at("2022-06-01T12:30:00.123456+00:00"),
    ];
    let histogram = aggregate(&messages);
    let mut expected = [0u64; 24];
    expected[3] = 2;
    expected[23] = 1;
    expected[0] = 1;
    expected[12] = 1;
    assert_eq!(histogram.counts(), expected);
    assert_eq!(histogram.sum(), 5);
}

#[test]
fn aggregate_takes_the_hour_in_the_offset_of_the_timestamp() {
    let messages = vec![
        at("2022-01-02T22:15:00-08:00"),
        at("2022-01-03T06:15:00+00:00"),
        at("2022-01-03T11:45:00+05:30"),
    ];
    let histogram = aggregate(&messages);
    assert_eq!(histogram.count(22), 1);
    assert_eq!(histogram.count(6), 1);
    assert_eq!(histogram.count(11), 1);
    assert_eq!(histogram.sum(), 3);
}

#[test]
fn aggregate_leaves_out_unparseable_timestamps() {
    let messages = vec![
        at("2022-01-02T03:04:05+00:00"),
        at("yesterday"),
        at(""),
        at("2022-01-02 03:04:05"),
        at("2022-01-02T25:00:00+00:00"),
        at("2022-01-02T07:00:00Z"),
        at("03"),
    ];
    let histogram = aggregate(&messages);
    assert_eq!(histogram.sum(), 2);
    assert_eq!(own_sum(&histogram), 2);
    assert!(histogram.sum() < messages.len() as u64);
    assert_eq!(histogram.count(3), 1);
    assert_eq!(histogram.count(7), 1);
    assert_eq!(histogram.count(25), 0);
}

#[test]
fn aggregate_sums_to_the_count_when_all_parse() {
    let mut messages = Vec::new();
    for hour in 0..24 {
        for _ in 0..=hour {
            messages.push(at(&format!("2022-03-04T{:02}:10:20+00:00", hour)));
        }
    }
    let histogram = aggregate(&messages);
    assert_eq!(histogram.sum(), messages.len() as u64);
    assert_eq!(histogram.sum(), 300);
    for hour in 0..24u32 {
        assert_eq!(histogram.count(hour), hour as u64 + 1);
    }
}

#[test]
fn aggregate_of_nothing_is_all_zero() {
    let histogram = aggregate(&Vec::new());
    assert_eq!(histogram.counts(), [0u64; 24]);
    assert_eq!(histogram.sum(), 0);
}

#[test]
fn aggregate_counts_afresh_each_time() {
    let mut messages = vec![at("2022-01-02T03:04:05+00:00")];
    let first = aggregate(&messages);
    messages.push(at("2022-01-02T04:04:05+00:00"));
    let second = aggregate(&messages);
    assert_eq!(first.sum(), 1);
    assert_eq!(second.sum(), 2);
    assert_eq!(aggregate(&messages), second);
}

#[test]
fn rows_name_the_hours_on_a_twelve_hour_clock() {
    let histogram = tally(&vec![Some(0), Some(13), Some(13), Some(23)]);
    let rows = histogram.rows();
    let names: Vec<&str> = rows.iter().map(|row| row.0).collect();
    assert_eq!(
        names,
        vec![
            "12am", "1am", "2am", "3am", "4am", "5am", "6am", "7am", "8am", "9am", "10am",
            "11am", "12pm", "1pm", "2pm", "3pm", "4pm", "5pm", "6pm", "7pm", "8pm", "9pm",
            "10pm", "11pm",
        ]
    );
    let counts: Vec<u64> = rows.iter().map(|row| row.1).collect();
    assert_eq!(counts, histogram.counts().to_vec());
    assert_eq!(rows[0], ("12am", 1));
    assert_eq!(rows[13], ("1pm", 2));
    assert_eq!(rows[23], ("11pm", 1));
    assert_eq!(rows[12], ("12pm", 0));
}
