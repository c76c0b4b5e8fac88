use careful_resume::client::{stream_window_for, Download};

#[test]
fn the_window_is_half_the_congestion_window() {
    assert_eq!(stream_window_for("1000"), Some(500));
    assert_eq!(stream_window_for("+7"), Some(3));
    assert_eq!(stream_window_for("0"), Some(0));
    assert_eq!(stream_window_for("18446744073709551615"), Some(9223372036854775807));
}

#[test]
fn a_congestion_window_is_a_number() {
    assert_eq!(stream_window_for(""), None);
    assert_eq!(stream_window_for("-2"), None);
    assert_eq!(stream_window_for("1e3"), None);
    assert_eq!(stream_window_for("18446744073709551616"), None);
}

#[test]
fn a_download_counts_what_arrives() {
    let mut download = Download::start();
    assert_eq!((download.total, download.bits()), (0, 0));
    download.record(1000);
    download.record(24);
    assert_eq!((download.total, download.bits()), (1024, 8192));
}
