use mpv_ipc::Command;
use mpv_ipc::LoadMode;
use mpv_ipc::MpvError;
use mpv_ipc::Payload;
use mpv_ipc::PayloadKind;
use mpv_ipc::Request;
use mpv_ipc::SeekMode;
use mpv_ipc::ResponseReader;
use mpv_ipc::check_size;
use mpv_ipc::encode_request;
use mpv_ipc::flag_data;
use mpv_ipc::WireValue;
use mpv_ipc::number_data;

#[test]
fn encode_request_exact_text() {
    let req = Request {
        command: Command::Seek(30, SeekMode::Relative).to_command_list(),
        request_id: 7,
    };
    let line = encode_request(&req).unwrap();
    assert_eq!(line, "{\"command\":[\"seek\",30,\"relative\"],\"request_id\":7}");
}

#[test]
fn encode_request_escapes_text() {
    let req = Request {
        command: Command::LoadFile(String::from("/tmp/a \"b\".mp3"), LoadMode::Replace)
            .to_command_list(),
        request_id: 1,
    };
    let line = encode_request(&req).unwrap();
    assert_eq!(
        line,
        "{\"command\":[\"loadfile\",\"/tmp/a \\\"b\\\".mp3\",\"replace\"],\"request_id\":1}"
    );
}

#[test]
fn check_size_zero_is_write_failure() {
    assert_eq!(check_size(0), Err(MpvError::WriteZero));
    assert_eq!(check_size(17), Ok(()));
}

#[test]
fn single_read_reply_decodes() {
    let chunk = b"{\"data\":true,\"error\":\"success\"}\n";
    let mut reader = ResponseReader::new();
    let resp = reader.feed(chunk, chunk.len(), PayloadKind::Flag).unwrap();
    assert!(resp.success());
    assert_eq!(resp.data, Some(Payload::Flag(true)));
}

#[test]
fn split_reply_decodes_at_every_offset() {
    // One decodable line split into two reads at every possible byte offset
    // must decode exactly as a single-read delivery.
    let line = b"{\"data\":true,\"error\":\"success\"}\n";
    for split in 1..line.len() {
        let mut reader = ResponseReader::new();
        let first = &line[..split];
        let rest = &line[split..];
        assert!(reader.feed(first, first.len(), PayloadKind::Flag).is_none());
        let resp = reader
            .feed(rest, rest.len(), PayloadKind::Flag)
            .expect("second read must complete the line");
        assert!(resp.success());
        assert_eq!(resp.data, Some(Payload::Flag(true)));
    }
}

#[test]
fn split_reply_decodes_across_many_reads() {
    let line = b"{\"data\":12.5,\"error\":\"success\"}\n";
    let mut reader = ResponseReader::new();
    let mut result = None;
    for (i, byte) in line.iter().enumerate() {
        let one = [*byte];
        match reader.feed(&one, 1, PayloadKind::Number) {
            Some(resp) => {
                assert_eq!(i, line.len() - 1);
                result = Some(resp);
            }
            None => assert!(i < line.len() - 1),
        }
    }
    let resp = result.expect("last byte closes the line");
    assert_eq!(number_data(resp), Ok(String::from("12.5")));
}

#[test]
fn undecodable_line_is_skipped_without_another_read() {
    // Two complete lines in one chunk: the first is not a response envelope,
    // the second is; one feed of that single chunk returns the second.
    let chunk = b"this is unrelated chatter\n{\"data\":true,\"error\":\"success\"}\n";
    let mut reader = ResponseReader::new();
    let resp = reader
        .feed(chunk, chunk.len(), PayloadKind::Flag)
        .expect("second line decodes from the same chunk");
    assert!(resp.success());
    assert_eq!(resp.data, Some(Payload::Flag(true)));
}

#[test]
fn malformed_json_line_is_skipped() {
    let chunk = b"{\"data\":true,\"error\":\n{\"data\":false,\"error\":\"success\"}\n";
    let mut reader = ResponseReader::new();
    let resp = reader.feed(chunk, chunk.len(), PayloadKind::Flag).unwrap();
    assert!(resp.success());
    assert_eq!(resp.data, Some(Payload::Flag(false)));
}

#[test]
fn getter_success_without_data_is_empty_value() {
    // A success reply whose data field is absent must fail cleanly for a
    // getter: no panic, no hang, an empty-value error.
    let chunk = b"{\"error\":\"success\"}\n";
    let mut reader = ResponseReader::new();
    let resp = reader.feed(chunk, chunk.len(), PayloadKind::Flag).unwrap();
    assert!(resp.success());
    assert_eq!(resp.data, None);
    assert_eq!(flag_data(resp), Err(MpvError::EmptyValue));

    let mut reader = ResponseReader::new();
    let resp = reader.feed(chunk, chunk.len(), PayloadKind::Number).unwrap();
    assert_eq!(number_data(resp), Err(MpvError::EmptyValue));
}

#[test]
fn null_data_counts_as_absent() {
    let chunk = b"{\"data\":null,\"error\":\"success\"}\n";
    let mut reader = ResponseReader::new();
    let resp = reader.feed(chunk, chunk.len(), PayloadKind::Flag).unwrap();
    assert!(resp.success());
    assert_eq!(resp.data, None);
}

#[test]
fn any_status_other_than_success_fails() {
    for status in ["error", "", "some player specific message"] {
        let line = format!("{{\"error\":\"{}\"}}\n", status);
        let chunk = line.as_bytes();
        let mut reader = ResponseReader::new();
        let resp = reader.feed(chunk, chunk.len(), PayloadKind::Flag).unwrap();
        assert!(!resp.success());
        assert_eq!(flag_data(resp), Err(MpvError::CommandFailed));
    }
}

#[test]
fn wrong_payload_shape_fails_the_line() {
    // A flag reply whose data is numeric does not decode as a flag response,
    // and the other way round: the line is skipped, nothing is returned.
    let chunk = b"{\"data\":12.5,\"error\":\"success\"}\n";
    let mut reader = ResponseReader::new();
    assert!(reader.feed(chunk, chunk.len(), PayloadKind::Flag).is_none());

    let chunk = b"{\"data\":true,\"error\":\"success\"}\n";
    let mut reader = ResponseReader::new();
    assert!(reader.feed(chunk, chunk.len(), PayloadKind::Number).is_none());
}

#[test]
fn scenario_load_file_success() {
    // Send load_file("/tmp/a.mp3", Replace); the server replies with a
    // success envelope; the call reports success.
    let req = Request {
        command: Command::LoadFile(String::from("/tmp/a.mp3"), LoadMode::Replace)
            .to_command_list(),
        request_id: 42,
    };
    let line = encode_request(&req).unwrap();
    assert_eq!(
        line,
        "{\"command\":[\"loadfile\",\"/tmp/a.mp3\",\"replace\"],\"request_id\":42}"
    );
    let reply = b"{\"data\":true,\"error\":\"success\"}\n";
    let mut reader = ResponseReader::new();
    let resp = reader.feed(reply, reply.len(), PayloadKind::Flag).unwrap();
    assert!(resp.success());
}

#[test]
fn scenario_seek_success_without_data() {
    // Send seek(30, Relative); the server replies success with no data field;
    // success is judged by the error field alone.
    let req = Request {
        command: Command::Seek(30, SeekMode::Relative).to_command_list(),
        request_id: 3,
    };
    assert_eq!(
        encode_request(&req).unwrap(),
        "{\"command\":[\"seek\",30,\"relative\"],\"request_id\":3}"
    );
    let reply = b"{\"error\":\"success\"}\n";
    let mut reader = ResponseReader::new();
    let resp = reader.feed(reply, reply.len(), PayloadKind::Flag).unwrap();
    assert!(resp.success());
}

#[test]
fn scenario_get_position_value() {
    // A position query answered with 12.5 yields exactly that number.
    let req = Request {
        command: Command::query_position().to_command_list(),
        request_id: 9,
    };
    assert_eq!(
        encode_request(&req).unwrap(),
        "{\"command\":[\"get_property\",\"time-pos\"],\"request_id\":9}"
    );
    let reply = b"{\"data\":12.5,\"error\":\"success\"}\n";
    let mut reader = ResponseReader::new();
    let resp = reader.feed(reply, reply.len(), PayloadKind::Number).unwrap();
    let value = number_data(resp).unwrap();
    assert_eq!(value.parse::<f32>().unwrap(), 12.5f32);
}

#[test]
fn scenario_getter_property_unavailable() {
    // The server rejects a getter: a logical failure, not a payload.
    let reply = b"{\"error\":\"property unavailable\"}\n";
    let mut reader = ResponseReader::new();
    let resp = reader.feed(reply, reply.len(), PayloadKind::Number).unwrap();
    assert!(!resp.success());
    assert_eq!(number_data(resp), Err(MpvError::CommandFailed));
}

#[test]
fn pause_state_reads_back() {
    let reply = b"{\"data\":false,\"error\":\"success\"}\n";
    let mut reader = ResponseReader::new();
    let resp = reader.feed(reply, reply.len(), PayloadKind::Flag).unwrap();
    assert_eq!(flag_data(resp), Ok(false));
}

#[test]
fn integer_position_reads_back() {
    let reply = b"{\"data\":30,\"error\":\"success\"}\n";
    let mut reader = ResponseReader::new();
    let resp = reader.feed(reply, reply.len(), PayloadKind::Number).unwrap();
    let value = number_data(resp).unwrap();
    assert_eq!(value.parse::<f32>().unwrap(), 30.0f32);
}

#[test]
fn feed_reads_only_the_filled_prefix() {
    // The reader is handed a large buffer of which only the first `size`
    // bytes came from the stream, exactly as a fixed-size read buffer is
    // reused between reads.
    let line = b"{\"data\":true,\"error\":\"success\"}\n";
    let mut buffer = [b'x'; 512];
    buffer[..line.len()].copy_from_slice(line);
    let mut reader = ResponseReader::new();
    let resp = reader.feed(&buffer, line.len(), PayloadKind::Flag).unwrap();
    assert!(resp.success());
    assert_eq!(resp.data, Some(Payload::Flag(true)));
}

#[test]
fn set_property_embeds_raw_value() {
    let req = Request {
        command: Command::SetProperty(
            String::from("volume-levels"),
            WireValue::Raw(String::from("[1,2,3]")),
        )
        .to_command_list(),
        request_id: 5,
    };
    assert_eq!(
        encode_request(&req).unwrap(),
        "{\"command\":[\"set_property\",\"volume-levels\",[1,2,3]],\"request_id\":5}"
    );
}

#[test]
fn malformed_raw_value_fails_to_encode() {
    let req = Request {
        command: Command::SetProperty(
            String::from("volume"),
            WireValue::Raw(String::from("not json at all")),
        )
        .to_command_list(),
        request_id: 5,
    };
    assert_eq!(encode_request(&req), Err(MpvError::Encode));
}
