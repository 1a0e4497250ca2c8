use simple_ci::changes::ChangeType;
use simple_ci::changes::Changes;
use simple_ci::codec::decode;
use simple_ci::codec::encode;
use simple_ci::codec::frame;
use simple_ci::codec::key_text;
use simple_ci::codec::open_frame;
use simple_ci::codec::strip_newline;
use simple_ci::codec::DecodeError;
use simple_ci::payload::changes_from_fields;
use simple_ci::payload::decode_payload;
use simple_ci::payload::encode_payload;

fn paths(items: &[&str]) -> Vec<String> {
    items.iter().map(|item| item.to_string()).collect()
}

fn file_change(items: &[&str]) -> Changes {
    Changes::new(ChangeType::FileChange, paths(items), None).unwrap()
}

fn new_commit(id: &str) -> Changes {
    Changes::new(ChangeType::NewCommit, Vec::new(), Some(id.to_string())).unwrap()
}

fn both(items: &[&str], id: &str) -> Changes {
    Changes::new(ChangeType::Both, paths(items), Some(id.to_string())).unwrap()
}

fn same(left: &Changes, right: &Changes) -> bool {
    left.change_type() == right.change_type()
        && left.files() == right.files()
        && left.commit_id() == right.commit_id()
}

#[test]
fn key_is_written_in_decimal() {
    assert_eq!(key_text(0), "0");
    assert_eq!(key_text(7), "7");
    assert_eq!(key_text(10), "10");
    assert_eq!(key_text(12345), "12345");
    assert_eq!(key_text(15_778_135_967_623_282_689), "15778135967623282689");
    assert_eq!(key_text(u128::MAX), "340282366920938463463374607431768211455");
}

#[test]
fn frame_puts_key_colon_payload_and_newline() {
    assert_eq!(frame(12345, "{}"), "12345:{}\n");
    assert_eq!(frame(0, ""), "0:\n");
    assert_eq!(frame(9, "a:b"), "9:a:b\n");
}

#[test]
fn open_frame_gives_the_text_behind_the_first_colon() {
    assert_eq!(open_frame("12345:{}", 12345), Ok("{}".to_string()));
    assert_eq!(open_frame("12345:{}\n", 12345), Ok("{}\n".to_string()));
    assert_eq!(open_frame("12345:a:b", 12345), Ok("a:b".to_string()));
    assert_eq!(open_frame("12345:", 12345), Ok(String::new()));
    assert_eq!(open_frame("12345: {} ", 12345), Ok(" {} ".to_string()));
}

#[test]
fn open_frame_takes_the_text_before_the_colon_as_it_stands() {
    assert_eq!(open_frame(" 12345:{}", 12345), Err(DecodeError::AuthMismatch));
    assert_eq!(open_frame("12345 :{}", 12345), Err(DecodeError::AuthMismatch));
    assert_eq!(open_frame("\t12345:{}", 12345), Err(DecodeError::AuthMismatch));
    assert_eq!(open_frame("\n12345:{}", 12345), Err(DecodeError::AuthMismatch));
    assert_eq!(open_frame("\u{3000}12345:x", 12345), Err(DecodeError::AuthMismatch));
    assert_eq!(open_frame("+12345:{}", 12345), Err(DecodeError::AuthMismatch));
}

#[test]
fn newline_is_taken_off_the_end_of_a_line() {
    assert_eq!(strip_newline("12345:{}\n"), "12345:{}");
    assert_eq!(strip_newline("12345:{}"), "12345:{}");
    assert_eq!(strip_newline("12345:{}\n\n"), "12345:{}\n");
    assert_eq!(strip_newline("12345:{}\r\n"), "12345:{}\r");
    assert_eq!(strip_newline("\n12345:{}"), "\n12345:{}");
    assert_eq!(strip_newline("12345:{} "), "12345:{} ");
    assert_eq!(strip_newline("\n"), "");
    assert_eq!(strip_newline(""), "");
    assert_eq!(strip_newline("\u{e9}\n"), "\u{e9}");
}

#[test]
fn open_frame_without_colon_is_malformed() {
    assert_eq!(open_frame("12345", 12345), Err(DecodeError::MalformedMessage));
    assert_eq!(open_frame("", 12345), Err(DecodeError::MalformedMessage));
    assert_eq!(open_frame("   \n", 12345), Err(DecodeError::MalformedMessage));
    assert_eq!(open_frame("12345;{}", 12345), Err(DecodeError::MalformedMessage));
    assert_eq!(open_frame("{\"change_type\"}", 12345), Err(DecodeError::MalformedMessage));
}

#[test]
fn open_frame_with_another_key_is_a_mismatch() {
    assert_eq!(open_frame("12345:{}", 99999), Err(DecodeError::AuthMismatch));
    assert_eq!(open_frame("012345:{}", 12345), Err(DecodeError::AuthMismatch));
    assert_eq!(open_frame("1234:5:{}", 12345), Err(DecodeError::AuthMismatch));
    assert_eq!(open_frame(":{}", 0), Err(DecodeError::AuthMismatch));
    assert_eq!(open_frame("12 345:{}", 12345), Err(DecodeError::AuthMismatch));
}

#[test]
fn payload_of_a_file_change() {
    assert_eq!(
        encode_payload(&file_change(&["a.rs"])),
        "{\"change_type\":\"FileChange\",\"files\":[\"a.rs\"],\"commit_id\":null}"
    );
}

#[test]
fn payload_of_a_new_commit() {
    assert_eq!(
        encode_payload(&new_commit("0a1b2c")),
        "{\"change_type\":\"NewCommit\",\"files\":[],\"commit_id\":\"0a1b2c\"}"
    );
}

#[test]
fn payload_of_both() {
    assert_eq!(
        encode_payload(&both(&["a.rs", "src/b.rs", "c"], "ff")),
        "{\"change_type\":\"Both\",\"files\":[\"a.rs\",\"src/b.rs\",\"c\"],\"commit_id\":\"ff\"}"
    );
}

#[test]
fn payload_escapes_what_json_escapes() {
    assert_eq!(
        encode_payload(&file_change(&["a\"b", "c\\d", "e\nf", "g\u{1}h", "\u{e9}"])),
        "{\"change_type\":\"FileChange\",\"files\":[\"a\\\"b\",\"c\\\\d\",\"e\\nf\",\"g\\u0001h\",\"\u{e9}\"],\"commit_id\":null}"
    );
}

#[test]
fn line_of_an_event() {
    assert_eq!(
        encode(12345, &file_change(&["a.rs"])),
        "12345:{\"change_type\":\"FileChange\",\"files\":[\"a.rs\"],\"commit_id\":null}\n"
    );
}

#[test]
fn dispatcher_line_decodes_under_its_key() {
    let line = "12345:{\"change_type\":\"FileChange\",\"files\":[\"a.rs\"],\"commit_id\":null}";
    let event = decode(line, 12345).unwrap();
    assert_eq!(event.change_type(), ChangeType::FileChange);
    assert_eq!(event.files(), &paths(&["a.rs"]));
    assert_eq!(event.commit_id(), &None);
}

#[test]
fn dispatcher_line_is_rejected_under_another_key() {
    let line = "12345:{\"change_type\":\"FileChange\",\"files\":[\"a.rs\"],\"commit_id\":null}";
    assert_eq!(decode(line, 99999).err(), Some(DecodeError::AuthMismatch));
}

#[test]
fn mismatched_key_is_rejected_whatever_the_payload() {
    assert_eq!(decode("1:", 2).err(), Some(DecodeError::AuthMismatch));
    assert_eq!(decode("1:not json", 2).err(), Some(DecodeError::AuthMismatch));
    assert_eq!(decode("1:{}", 2).err(), Some(DecodeError::AuthMismatch));
    let line = encode(1, &both(&["a"], "b"));
    assert_eq!(decode(&line, 2).err(), Some(DecodeError::AuthMismatch));
    assert_eq!(decode(strip_newline(&line), 2).err(), Some(DecodeError::AuthMismatch));
    assert_eq!(decode(" 1:{}", 1).err(), Some(DecodeError::AuthMismatch));
    let event = "{\"change_type\":\"FileChange\",\"files\":[\"a.rs\"],\"commit_id\":null}";
    assert_eq!(
        decode(&format!(" 12345:{}", event), 12345).err(),
        Some(DecodeError::AuthMismatch)
    );
    assert_eq!(
        decode(&format!("12345 :{}", event), 12345).err(),
        Some(DecodeError::AuthMismatch)
    );
}

#[test]
fn line_without_colon_is_malformed() {
    assert_eq!(decode("no delimiter here", 12345).err(), Some(DecodeError::MalformedMessage));
    assert_eq!(decode("", 12345).err(), Some(DecodeError::MalformedMessage));
    assert_eq!(decode("12345", 12345).err(), Some(DecodeError::MalformedMessage));
}

#[test]
fn text_that_is_not_json_is_an_invalid_payload() {
    assert_eq!(decode("12345:", 12345).err(), Some(DecodeError::InvalidPayload));
    assert_eq!(decode("12345:hello", 12345).err(), Some(DecodeError::InvalidPayload));
    assert_eq!(decode("12345:not json", 12345).err(), Some(DecodeError::InvalidPayload));
    assert_eq!(decode("12345:{", 12345).err(), Some(DecodeError::InvalidPayload));
    assert_eq!(
        decode("12345:{\"change_type\":\"FileChange\",\"files\":[\"a\"],}", 12345).err(),
        Some(DecodeError::InvalidPayload)
    );
    assert_eq!(
        decode("12345:{\"change_type\":\"FileChange\",\"files\":[\"a\"]} x", 12345).err(),
        Some(DecodeError::InvalidPayload)
    );
}

#[test]
fn json_that_is_no_event_is_an_invalid_payload() {
    assert_eq!(decode("12345:{}", 12345).err(), Some(DecodeError::InvalidPayload));
    assert_eq!(decode("12345:[]", 12345).err(), Some(DecodeError::InvalidPayload));
    assert_eq!(decode("12345:null", 12345).err(), Some(DecodeError::InvalidPayload));
    assert_eq!(decode("12345:\"FileChange\"", 12345).err(), Some(DecodeError::InvalidPayload));
    assert_eq!(
        decode("12345:{\"change_type\":\"Rename\",\"files\":[\"a\"],\"commit_id\":null}", 12345)
            .err(),
        Some(DecodeError::InvalidPayload)
    );
    assert_eq!(
        decode("12345:{\"change_type\":1,\"files\":[\"a\"],\"commit_id\":null}", 12345).err(),
        Some(DecodeError::InvalidPayload)
    );
    assert_eq!(
        decode("12345:{\"change_type\":\"FileChange\",\"files\":\"a\",\"commit_id\":null}", 12345)
            .err(),
        Some(DecodeError::InvalidPayload)
    );
    assert_eq!(
        decode("12345:{\"change_type\":\"FileChange\",\"files\":[1],\"commit_id\":null}", 12345)
            .err(),
        Some(DecodeError::InvalidPayload)
    );
    assert_eq!(
        decode("12345:{\"change_type\":\"Both\",\"files\":[\"a\"],\"commit_id\":7}", 12345).err(),
        Some(DecodeError::InvalidPayload)
    );
    assert_eq!(
        decode("12345:{\"files\":[\"a\"],\"commit_id\":null}", 12345).err(),
        Some(DecodeError::InvalidPayload)
    );
    assert_eq!(
        decode("12345:{\"change_type\":\"FileChange\",\"commit_id\":null}", 12345).err(),
        Some(DecodeError::InvalidPayload)
    );
}

#[test]
fn event_whose_fields_do_not_fit_its_kind_is_an_invalid_payload() {
    assert_eq!(
        decode("1:{\"change_type\":\"FileChange\",\"files\":[],\"commit_id\":null}", 1).err(),
        Some(DecodeError::InvalidPayload)
    );
    assert_eq!(
        decode("1:{\"change_type\":\"FileChange\",\"files\":[\"a\"],\"commit_id\":\"c\"}", 1).err(),
        Some(DecodeError::InvalidPayload)
    );
    assert_eq!(
        decode("1:{\"change_type\":\"NewCommit\",\"files\":[\"a\"],\"commit_id\":\"c\"}", 1).err(),
        Some(DecodeError::InvalidPayload)
    );
    assert_eq!(
        decode("1:{\"change_type\":\"NewCommit\",\"files\":[],\"commit_id\":null}", 1).err(),
        Some(DecodeError::InvalidPayload)
    );
    assert_eq!(
        decode("1:{\"change_type\":\"Both\",\"files\":[],\"commit_id\":\"c\"}", 1).err(),
        Some(DecodeError::InvalidPayload)
    );
    assert_eq!(
        decode("1:{\"change_type\":\"Both\",\"files\":[\"a\"],\"commit_id\":null}", 1).err(),
        Some(DecodeError::InvalidPayload)
    );
}

#[test]
fn members_may_come_in_any_order_and_with_strangers() {
    let event = decode(
        "7:{ \"commit_id\" : \"c1\", \"extra\": {\"deep\": [1, 2.5, true]}, \"files\": [ \"a\" , \"b\" ], \"change_type\": \"Both\" }",
        7,
    )
    .unwrap();
    assert!(same(&event, &both(&["a", "b"], "c1")));
}

#[test]
fn missing_commit_id_reads_as_null() {
    let event = decode("7:{\"change_type\":\"FileChange\",\"files\":[\"a\"]}", 7).unwrap();
    assert!(same(&event, &file_change(&["a"])));
}

#[test]
fn escapes_are_read_back() {
    let event = decode(
        "7:{\"change_type\":\"FileChange\",\"files\":[\"a\\\"b\\\\c\\u0041\\n\"],\"commit_id\":null}",
        7,
    )
    .unwrap();
    assert!(same(&event, &file_change(&["a\"b\\cA\n"])));
}

#[test]
fn decode_undoes_encode_for_a_file_change() {
    let event = file_change(&["a.rs", "dir/b c.txt", "q\"uote", "colon:in:name", "tab\there"]);
    let line = encode(15_778_135_967_623_282_689, &event);
    let back = decode(strip_newline(&line), 15_778_135_967_623_282_689).unwrap();
    assert!(same(&back, &event));
}

#[test]
fn decode_undoes_encode_for_a_new_commit() {
    let event = new_commit("3f786850e387550fdab836ed7e6dc881de23001b");
    let line = encode(0, &event);
    let back = decode(strip_newline(&line), 0).unwrap();
    assert!(same(&back, &event));
}

#[test]
fn decode_undoes_encode_for_both() {
    let event = both(&["\u{1F600}.rs", " lead", "trail ", ""], "abc");
    let line = encode(u128::MAX, &event);
    let back = decode(strip_newline(&line), u128::MAX).unwrap();
    assert!(same(&back, &event));
}

#[test]
fn fields_make_an_event_when_they_fit() {
    let event = changes_from_fields("Both", paths(&["a"]), Some("c".to_string())).unwrap();
    assert!(same(&event, &both(&["a"], "c")));
    assert!(changes_from_fields("both", paths(&["a"]), Some("c".to_string())).is_none());
    assert!(changes_from_fields("Both", Vec::new(), Some("c".to_string())).is_none());
    assert!(changes_from_fields("FileChange", paths(&["a"]), Some("c".to_string())).is_none());
    assert!(changes_from_fields("NewCommit", Vec::new(), None).is_none());
    assert!(changes_from_fields("", Vec::new(), None).is_none());
}

#[test]
fn payload_reads_back() {
    let event = decode_payload(
        "{\"change_type\":\"NewCommit\",\"files\":[],\"commit_id\":\"abc\"}",
    )
    .unwrap();
    assert!(same(&event, &new_commit("abc")));
    assert!(decode_payload("[\"NewCommit\",[],\"abc\"]").is_none());
}
