use purple_icq::files::{
    format_file_info, message_file_ids, pretty_size, process_message_files, FileInfoEntry,
};
use purple_icq::client::{
    FilesInfoResponseData, FilesInfoResponseDataInfo, FilesInfoResponseDataPreviews,
};
use purple_icq::protocol::{
    device_id, device_id_of, format_request_id, normalize_stamp, random_id, random_number,
    request_id, timestamp,
};
use purple_icq::text::{
    contains, decimal_string, ends_with, last_segment_of, parse_i32, parse_u32,
    signed_decimal_string, str_eq, str_less, string_of, to_chars,
};

fn file(size: usize, name: &str, mime: &str) -> FilesInfoResponseData {
    FilesInfoResponseData {
        info: FilesInfoResponseDataInfo {
            file_size: size,
            file_name: name.to_string(),
            md5: "abc".to_string(),
            dlink: "https://a/b?c=1".to_string(),
            mime: mime.to_string(),
        },
        previews: FilesInfoResponseDataPreviews { x192: "p".to_string() },
    }
}

#[test]
fn pretty_size_boundaries() {
    assert_eq!(pretty_size(0), "0kb");
    assert_eq!(pretty_size(999), "0kb");
    assert_eq!(pretty_size(1000), "1kb");
    assert_eq!(pretty_size(99_999), "99kb");
    assert_eq!(pretty_size(100_000), "0mb");
    assert_eq!(pretty_size(999_999), "0mb");
    assert_eq!(pretty_size(1_000_000), "1mb");
    assert_eq!(pretty_size(999_999_999), "999mb");
    assert_eq!(pretty_size(1_000_000_000), "1gb");
    assert_eq!(pretty_size(5_500_000_000), "5gb");
}

#[test]
fn shareable_link_is_normalized() {
    assert_eq!(normalize_stamp("https://icq.im/abc123".to_string()), "abc123");
    assert_eq!(normalize_stamp("abc123".to_string()), "abc123");
    assert_eq!(normalize_stamp("icq.im/x/y".to_string()), "y");
    assert_eq!(normalize_stamp("https://icq.im/".to_string()), "");
    assert_eq!(normalize_stamp("https://example.com/abc".to_string()), "https://example.com/abc");
}

#[test]
fn decimal_numerals() {
    assert_eq!(decimal_string(0), "0");
    assert_eq!(decimal_string(7), "7");
    assert_eq!(decimal_string(10), "10");
    assert_eq!(decimal_string(1234567890), "1234567890");
    assert_eq!(decimal_string(u64::MAX), "18446744073709551615");
    assert_eq!(signed_decimal_string(0), "0");
    assert_eq!(signed_decimal_string(-1), "-1");
    assert_eq!(signed_decimal_string(-20), "-20");
    assert_eq!(signed_decimal_string(i64::MIN), "-9223372036854775808");
    assert_eq!(signed_decimal_string(i64::MAX), "9223372036854775807");
}

#[test]
fn numerals_are_parsed() {
    assert_eq!(parse_u32("0"), Some(0));
    assert_eq!(parse_u32("007"), Some(7));
    assert_eq!(parse_u32("+12"), Some(12));
    assert_eq!(parse_u32("4294967295"), Some(u32::MAX));
    assert_eq!(parse_u32("4294967296"), None);
    assert_eq!(parse_u32("99999999999999999999999"), None);
    assert_eq!(parse_u32(""), None);
    assert_eq!(parse_u32("+"), None);
    assert_eq!(parse_u32("-1"), None);
    assert_eq!(parse_u32("1a"), None);
    assert_eq!(parse_u32(" 1"), None);
    assert_eq!(parse_i32("-2147483648"), Some(i32::MIN));
    assert_eq!(parse_i32("2147483647"), Some(i32::MAX));
    assert_eq!(parse_i32("2147483648"), None);
    assert_eq!(parse_i32("-2147483649"), None);
    assert_eq!(parse_i32("-"), None);
    assert_eq!(parse_i32("6"), Some(6));
}

#[test]
fn strings_are_compared() {
    assert!(str_eq("abc", "abc"));
    assert!(!str_eq("abc", "abd"));
    assert!(!str_eq("abc", "ab"));
    assert!(str_less("a", "b"));
    assert!(str_less("", "a"));
    assert!(!str_less("a", ""));
    assert!(!str_less("a", "a"));
    assert!(str_less("ab", "abc"));
    assert!(str_less("Z", "a"));
    assert!(str_less("z", "\u{e9}"));
    assert_eq!(str_less("10", "9"), "10" < "9");
}

#[test]
fn characters_round_trip() {
    let s = "h\u{e9}llo \u{1F600}";
    let chars = to_chars(s);
    assert_eq!(chars.len(), 7);
    assert_eq!(string_of(&chars), s);
}

#[test]
fn suffix_infix_and_segments() {
    assert!(ends_with("1@chat.agent", "@chat.agent"));
    assert!(!ends_with("chat.agent", "@chat.agent"));
    assert!(ends_with("x", ""));
    assert!(contains("https://icq.im/a", "icq.im/"));
    assert!(!contains("https://icq.io/a", "icq.im/"));
    assert!(contains("abc", ""));
    assert_eq!(last_segment_of("image/png", '/'), "png");
    assert_eq!(last_segment_of("png", '/'), "png");
    assert_eq!(last_segment_of("a/b/", '/'), "");
    assert_eq!(last_segment_of("", '/'), "");
}

#[test]
fn file_info_is_formatted() {
    let html = format_file_info(&file(12345, "a<b.png", "image/png"));
    assert_eq!(
        html,
        "<a href=\"https&#x3A;&#x2F;&#x2F;a&#x2F;b&#x3F;c&#x3D;1\" class=\"file\" data-mime=\"image&#x2F;png\" data-md5=\"abc\" data-filesize=\"12345\">a&lt;b.png [png 12kb]</a>"
    );
}

#[test]
fn file_info_escapes_quotes_and_ampersands() {
    let mut data = file(2_000_000, "\"x\" & 'y'", "text");
    data.info.md5 = "\"No\", he said.".to_string();
    let html = format_file_info(&data);
    assert!(html.contains("data-md5=\"&quot;No&quot;&#x2C;&#x20;he&#x20;said&#x2E;\""));
    assert!(html.contains(">&quot;x&quot; &amp; &#x27;y&#x27; [text 2mb]</a>"));
}

#[test]
fn message_without_reference_is_unchanged() {
    let files: Vec<FileInfoEntry> = vec![];
    assert_eq!(process_message_files("hello world", &files), "hello world");
    assert_eq!(process_message_files("", &files), "");
    assert!(message_file_ids("hello world").is_empty());
}

#[test]
fn file_references_are_rewritten() {
    let files = vec![
        FileInfoEntry { file_id: "AAA".to_string(), info: Some(file(1500, "a.txt", "text/plain")) },
        FileInfoEntry { file_id: "BBB".to_string(), info: None },
    ];
    let link = format_file_info(&file(1500, "a.txt", "text/plain"));
    let text = "x https://files.icq.net/get/AAA y https://files.icq.net/get/BBB z https://files.icq.net/get/CCC";
    assert_eq!(
        process_message_files(text, &files),
        format!("x {} y https://files.icq.net/get/BBB z https://files.icq.net/get/CCC", link)
    );
    assert_eq!(message_file_ids(text), vec!["AAA", "BBB", "CCC"]);
    assert_eq!(
        process_message_files("https://files.icq.net/get/AAA", &files),
        link
    );
    assert_eq!(
        process_message_files("https://files.icq.net/get/AAA https://files.icq.net/get/AAA", &files),
        format!("{} {}", link, link)
    );
}

#[test]
fn reference_with_empty_id() {
    let files = vec![FileInfoEntry {
        file_id: "".to_string(),
        info: Some(file(1, "n", "m")),
    }];
    let link = format_file_info(&file(1, "n", "m"));
    assert_eq!(process_message_files("https://files.icq.net/get/ x", &files), format!("{} x", link));
    assert_eq!(message_file_ids("https://files.icq.net/get/ x"), vec![""]);
}

#[test]
fn request_ids_have_the_set_form() {
    assert_eq!(format_request_id(12345, 1595534375), "12345-1595534375");
    assert_eq!(format_request_id(10000, 0), "10000-0");
    for _ in 0..50 {
        let r = random_number();
        assert!((10_000..100_000).contains(&r));
        let id = random_id();
        assert_eq!(id.len(), 5);
        assert!(id.chars().all(|c| c.is_ascii_digit()));
        let request = request_id();
        let parts: Vec<&str> = request.split('-').collect();
        assert_eq!(parts.len(), 2);
        assert_eq!(parts[0].len(), 5);
        assert!(parts[1].parse::<u32>().is_ok());
    }
}

#[test]
fn timestamp_is_now() {
    let t = timestamp();
    assert!(t > 1_600_000_000);
}

#[test]
fn device_id_is_a_name_based_uuid() {
    assert_eq!(device_id_of("python.org"), "886313e1-3b8a-5372-9b90-0c9aee199e5d");
    assert_ne!(device_id_of("12345"), "12345");
    let id = device_id();
    assert_eq!(id.len(), 36);
    assert_eq!(&id[14..15], "5");
}

#[test]
fn clock_readings_are_cut_to_32_bits() {
    assert_eq!(purple_icq::protocol::timestamp_of(None), 0);
    assert_eq!(purple_icq::protocol::timestamp_of(Some(0)), 0);
    assert_eq!(purple_icq::protocol::timestamp_of(Some(1595534375)), 1595534375);
    assert_eq!(purple_icq::protocol::timestamp_of(Some(4294967295)), u32::MAX);
    assert_eq!(purple_icq::protocol::timestamp_of(Some(4294967296)), 0);
    assert_eq!(purple_icq::protocol::timestamp_of(Some(4294967301)), 5);
    assert_eq!(purple_icq::protocol::timestamp_of(Some(u64::MAX)), u32::MAX);
}
