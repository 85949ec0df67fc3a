use downmix::channels::{collect_counts, needs_downmix, ChannelField};
use downmix::errors::{ErrorKind, RunError};

#[test]
fn six_channel_stream_needs_downmix() {
    let counts: Vec<i64> = vec![1, 2, 6];
    assert!(needs_downmix(&counts));
}

#[test]
fn stereo_streams_need_no_downmix() {
    let counts: Vec<i64> = vec![2, 2];
    assert!(!needs_downmix(&counts));
}

#[test]
fn no_streams_need_no_downmix() {
    let counts: Vec<i64> = vec![];
    assert!(!needs_downmix(&counts));
}

#[test]
fn three_channels_is_over_the_line() {
    assert!(needs_downmix(&vec![3]));
    assert!(!needs_downmix(&vec![2]));
    assert!(!needs_downmix(&vec![1, 0, 2]));
}

#[test]
fn counts_are_collected_in_stream_order() {
    let fields = vec![
        ChannelField::Missing,
        ChannelField::Count(1),
        ChannelField::Missing,
        ChannelField::Count(6),
    ];
    let counts = collect_counts(&fields).unwrap();
    assert_eq!(counts, vec![1, 6]);
}

#[test]
fn empty_record_list_collects_nothing() {
    let counts = collect_counts(&vec![]).unwrap();
    assert!(counts.is_empty());
}

#[test]
fn invalid_channel_field_fails_collection() {
    let fields = vec![ChannelField::Count(2), ChannelField::Invalid];
    let err = collect_counts(&fields).unwrap_err();
    assert!(matches!(err, RunError::InvalidChannelValue));
    assert_eq!(err.kind(), ErrorKind::MetadataParse);
}
