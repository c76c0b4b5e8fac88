use careful_resume::http::{
    file_headers, is_http3, max_stream_data, request_headers, route, Header, Reply, SizedFile,
    MAX_STREAM_DATA_CAP,
};

const GET: Option<&[u8]> = Some(b"GET");
const HTTPS: Option<&[u8]> = Some(b"https");

fn pairs(headers: &[Header]) -> Vec<(&[u8], &[u8])> {
    headers.iter().map(|h| (h.name.as_slice(), h.value.as_slice())).collect()
}

#[test]
fn http3_is_negotiated_by_name() {
    assert!(is_http3(b"h3"));
    assert!(!is_http3(b"H3"));
}

#[test]
fn each_file_has_a_path() {
    for (path, file, disk) in [
        ("/1MB.bin", SizedFile::Mb1, "/files/1MB.bin"),
        ("/10MB.bin", SizedFile::Mb10, "/files/10MB.bin"),
        ("/100MB.bin", SizedFile::Mb100, "/files/100MB.bin"),
        ("/1GB.bin", SizedFile::Gb1, "/files/1GB.bin"),
    ] {
        assert_eq!(route(GET, HTTPS, Some(path.as_bytes())), Reply::File(file));
        assert_eq!(file.disk_path(), disk);
    }
}

#[test]
fn the_root_is_greeted() {
    let reply = route(GET, HTTPS, Some(b"/"));
    assert_eq!(reply, Reply::Greeting);
    assert_eq!(pairs(&reply.headers()), vec![(&b":status"[..], &b"200"[..])]);
    assert_eq!(reply.data(), Some(&b"hello world"[..]));
}

#[test]
fn other_methods_are_not_allowed() {
    let reply = route(Some(b"POST"), HTTPS, Some(b"/"));
    assert_eq!(reply, Reply::MethodNotAllowed);
    assert_eq!(pairs(&reply.headers()), vec![(&b":status"[..], &b"405"[..])]);
    assert_eq!(reply.data(), None);
    assert_eq!(route(Some(b"get"), None, None), Reply::MethodNotAllowed);
}

#[test]
fn malformed_requests_are_bad() {
    for reply in [
        route(None, HTTPS, Some(b"/")),
        route(GET, None, Some(b"/")),
        route(GET, HTTPS, None),
        route(GET, Some(b"http"), Some(b"/")),
        route(GET, HTTPS, Some(b"/2MB.bin")),
        route(GET, HTTPS, Some(b"")),
    ] {
        assert_eq!(reply, Reply::BadRequest);
        assert_eq!(pairs(&reply.headers()), vec![(&b":status"[..], &b"400"[..])]);
        assert_eq!(reply.data(), None);
    }
}

#[test]
fn a_request_names_what_it_asks_for() {
    let headers = request_headers("example.com", "/1GB.bin");
    assert_eq!(
        pairs(&headers),
        vec![
            (&b":method"[..], &b"GET"[..]),
            (&b":scheme"[..], &b"https"[..]),
            (&b":authority"[..], &b"example.com"[..]),
            (&b":path"[..], &b"/1GB.bin"[..]),
            (&b"user-agent"[..], &b"quiche-tokio"[..]),
        ]
    );
    let value = |i: usize| Some(headers[i].value.as_slice());
    assert_eq!(route(value(0), value(1), value(3)), Reply::File(SizedFile::Gb1));
}

#[test]
fn a_file_is_sent_with_its_length() {
    assert_eq!(
        pairs(&file_headers(1_048_576)),
        vec![(&b":status"[..], &b"200"[..]), (&b"content-length"[..], &b"1048576"[..])]
    );
}

#[test]
fn the_client_reads_the_length_of_a_file() {
    for len in [0, 1, 1_048_576, 10_485_760] {
        assert_eq!(max_stream_data(Some(&file_headers(len)[1].value)), Some(len));
    }
    assert_eq!(max_stream_data(Some(&file_headers(1_073_741_824)[1].value)), Some(10_485_760));
}

#[test]
fn stream_data_is_capped() {
    assert_eq!(MAX_STREAM_DATA_CAP, 10 * 1024 * 1024);
    assert_eq!(max_stream_data(Some(b"10485761")), Some(10_485_760));
    assert_eq!(max_stream_data(Some(b"18446744073709551615")), Some(10_485_760));
    assert_eq!(max_stream_data(Some(b"18446744073709551616")), None);
}

#[test]
fn without_a_length_no_limit_is_set() {
    assert_eq!(max_stream_data(None), None);
    assert_eq!(max_stream_data(Some(b"")), None);
    assert_eq!(max_stream_data(Some(b"12kB")), None);
    assert_eq!(max_stream_data(Some(&[0xff, 0xfe])), None);
}
