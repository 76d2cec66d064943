use codemaster::api::framing::data_frames;

fn frames(text: &str) -> Vec<String> {
    data_frames(text.as_bytes())
        .into_iter()
        .map(|frame| String::from_utf8(frame).unwrap())
        .collect()
}

#[test]
fn data_frames_are_extracted_in_order() {
    assert_eq!(frames("data: {\"a\":1}\n\ndata: {\"b\":2}\n\n"), vec!["{\"a\":1}", "{\"b\":2}"]);
}

#[test]
fn end_sentinel_is_dropped() {
    assert_eq!(frames("data: {\"a\":1}\n\ndata: [DONE]\n\n"), vec!["{\"a\":1}"]);
    assert!(frames("data: [DONE]").is_empty());
}

#[test]
fn other_lines_are_ignored() {
    assert_eq!(frames(": keep-alive\nevent: ping\ndata: x\nid: 7\n"), vec!["x"]);
    assert!(frames("").is_empty());
    assert!(frames("\n\n\n").is_empty());
}

#[test]
fn marker_must_be_exact() {
    assert!(frames("data:{\"a\":1}\n").is_empty());
    assert!(frames(" data: x\n").is_empty());
    assert!(frames("Data: x\n").is_empty());
    assert_eq!(frames("data:  x\n"), vec![" x"]);
    assert_eq!(frames("data: \n"), vec![""]);
}

#[test]
fn carriage_return_before_line_feed_is_stripped() {
    assert_eq!(frames("data: one\r\ndata: two\r\n"), vec!["one", "two"]);
    assert!(frames("data: [DONE]\r\n").is_empty());
}

#[test]
fn last_line_need_not_be_terminated() {
    assert_eq!(frames("data: one\ndata: two"), vec!["one", "two"]);
    // A bare carriage return at the very end belongs to the line.
    assert_eq!(frames("data: one\r"), vec!["one\r"]);
    assert_eq!(frames("data: [DONE]\r"), vec!["[DONE]\r"]);
}

#[test]
fn sentinel_must_be_the_whole_payload() {
    assert_eq!(frames("data: [DONE] \n"), vec!["[DONE] "]);
    assert_eq!(frames("data: [DONE]x\n"), vec!["[DONE]x"]);
    assert_eq!(frames("data: [done]\n"), vec!["[done]"]);
}

#[test]
fn framing_agrees_with_line_splitting_of_the_standard_library() {
    let samples = [
        "data: a\n\r\ndata: b\r\r\n: c\ndata: [DONE]\ndata: d",
        "\r\n\r\ndata: x\r",
        "data: 你好\ndata: [DONE]\n",
        "data: a\rdata: b\n",
    ];
    for sample in samples {
        let mut expected = Vec::new();
        for line in sample.lines() {
            if line.starts_with("data: ") {
                let data = &line[6..];
                if data == "[DONE]" {
                    continue;
                }
                expected.push(data.to_string());
            }
        }
        assert_eq!(frames(sample), expected);
    }
}

#[test]
fn payload_bytes_are_kept_as_they_are() {
    let bytes = [b'd', b'a', b't', b'a', b':', b' ', 0xff, 0x00, b'\n'];
    assert_eq!(data_frames(&bytes), vec![vec![0xff, 0x00]]);
}
