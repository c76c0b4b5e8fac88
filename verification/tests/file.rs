use careful_resume::file::{send_file, FileAction, FileEvent, FileStage};

fn send(len: u64, reads: &[&[u8]]) -> (String, Vec<u8>) {
    let mut reads = reads.iter();
    let mut content_length = String::new();
    let mut body = vec![];
    let (mut stage, mut event) = (FileStage::Opening, FileEvent::Opened { len });
    loop {
        assert!(stage.takes(&event));
        let (next, action) = send_file(stage, event);
        stage = next;
        event = match action {
            FileAction::SendHeaders(headers) => {
                content_length = String::from_utf8(headers[1].value.clone()).unwrap();
                FileEvent::Sent
            }
            FileAction::Read { at_most } => {
                assert_eq!(at_most, 8192);
                FileEvent::Read(reads.next().unwrap().to_vec())
            }
            FileAction::SendData(data) => {
                body.extend(data);
                FileEvent::Sent
            }
            FileAction::Finish => {
                assert_eq!(stage, FileStage::Done);
                return (content_length, body);
            }
        };
    }
}

#[test]
fn a_file_is_sent_whole() {
    let (length, body) = send(7, &[b"abc", b"defg", b""]);
    assert_eq!(length, "7");
    assert_eq!(body, b"abcdefg");
}

#[test]
fn a_file_is_sent_in_order() {
    let mut work = vec![];
    let mut reads = vec![vec![1u8; 8192], vec![2], vec![]].into_iter();
    let (mut stage, mut event) = (FileStage::Opening, FileEvent::Opened { len: 8193 });
    while stage != FileStage::Done {
        let (next, action) = send_file(stage, event);
        stage = next;
        work.push(match &action {
            FileAction::SendHeaders(_) => "headers".to_string(),
            FileAction::Read { at_most } => format!("read {at_most}"),
            FileAction::SendData(data) => format!("send {} of {}", data.len(), data[0]),
            FileAction::Finish => "finish".to_string(),
        });
        event = match action {
            FileAction::Read { .. } => FileEvent::Read(reads.next().unwrap()),
            _ => FileEvent::Sent,
        };
    }
    assert_eq!(
        work,
        ["headers", "read 8192", "send 8192 of 1", "read 8192", "send 1 of 2", "read 8192", "finish"]
    );
}

#[test]
fn an_empty_file_has_an_empty_body() {
    let (length, body) = send(0, &[b""]);
    assert_eq!(length, "0");
    assert!(body.is_empty());
}

#[test]
fn nothing_is_read_after_the_end() {
    let (_, body) = send(3, &[b"abc", b"", b"def", b""]);
    assert_eq!(body, b"abc");
}

#[test]
fn a_file_stage_takes_only_what_it_waits_for() {
    assert!(FileStage::Reading.takes(&FileEvent::Read(vec![])));
    assert!(FileStage::Reading.takes(&FileEvent::Read(vec![0; 8192])));
    assert!(!FileStage::Reading.takes(&FileEvent::Read(vec![0; 8193])));
    assert!(!FileStage::Reading.takes(&FileEvent::Sent));
    assert!(!FileStage::Done.takes(&FileEvent::Sent));
}
