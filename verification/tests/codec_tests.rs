use outpost::codec::{decode_process, encode_process};
use outpost::database::{v1, Process};

fn record(dir: &str, out: &str, err: &str, pid: Option<u32>) -> Process {
    Process::V1(v1::Process {
        directory: dir.to_string(),
        stdout: out.to_string(),
        stderr: err.to_string(),
        process_id: pid,
    })
}

#[test]
fn roundtrip_without_process_id() {
    let p = record("/home/user/repo", "/tmp/out.log", "/tmp/err.log", None);
    let bytes = encode_process(&p);
    assert_eq!(decode_process(&bytes), Some(p));
}

#[test]
fn roundtrip_with_process_id() {
    let p = record("/srv/www", "/var/log/o", "/var/log/e", Some(43210));
    let bytes = encode_process(&p);
    assert_eq!(decode_process(&bytes), Some(p));
}

#[test]
fn roundtrip_empty_fields() {
    let p = record("", "", "", Some(0));
    let bytes = encode_process(&p);
    assert_eq!(decode_process(&bytes), Some(p));
}

#[test]
fn roundtrip_non_ascii_paths() {
    let p = record("/home/\u{00fc}ser/repo\u{1f600}", "/tmp/\u{00e9}", "/tmp/\u{4e16}", Some(7));
    let bytes = encode_process(&p);
    assert_eq!(decode_process(&bytes), Some(p));
}

#[test]
fn exact_wire_bytes_without_process_id() {
    let p = record("a", "b", "c", None);
    let bytes = encode_process(&p);
    assert_eq!(
        bytes,
        vec![1u8, 1, 0, 0, 0, b'a', 1, 0, 0, 0, b'b', 1, 0, 0, 0, b'c', 0]
    );
}

#[test]
fn exact_wire_bytes_with_process_id() {
    let p = record("a", "b", "c", Some(258));
    let bytes = encode_process(&p);
    assert_eq!(
        bytes,
        vec![1u8, 1, 0, 0, 0, b'a', 1, 0, 0, 0, b'b', 1, 0, 0, 0, b'c', 1, 2, 1, 0, 0]
    );
}

#[test]
fn decode_rejects_unknown_version() {
    let p = record("a", "b", "c", None);
    let mut bytes = encode_process(&p);
    bytes[0] = 2;
    assert_eq!(decode_process(&bytes), None);
}

#[test]
fn decode_rejects_empty_input() {
    assert_eq!(decode_process(&vec![]), None);
}

#[test]
fn decode_rejects_truncated_input() {
    let p = record("abc", "d", "e", Some(9));
    let bytes = encode_process(&p);
    for n in 0..bytes.len() {
        let cut: Vec<u8> = bytes[..n].to_vec();
        assert_eq!(decode_process(&cut), None, "prefix of length {n} must not decode");
    }
}

#[test]
fn decode_rejects_trailing_garbage() {
    let p = record("abc", "d", "e", None);
    let mut bytes = encode_process(&p);
    bytes.push(0);
    assert_eq!(decode_process(&bytes), None);
}

#[test]
fn decode_rejects_bad_pid_tag() {
    let p = record("a", "b", "c", None);
    let mut bytes = encode_process(&p);
    let last = bytes.len() - 1;
    bytes[last] = 3;
    assert_eq!(decode_process(&bytes), None);
}

#[test]
fn decode_rejects_invalid_utf8_field() {
    // A single one-byte field holding 0xff, which is not valid UTF-8.
    let bytes = vec![1u8, 1, 0, 0, 0, 0xff, 0, 0, 0, 0, 0, 0, 0, 0, 0];
    assert_eq!(decode_process(&bytes), None);
}
