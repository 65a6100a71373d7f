use clj_pack::error::PackError;
use clj_pack::pack::archive::hash_file;
use clj_pack::pack::create_binary;
use clj_pack::pack::stub::generate;

const SCRIPT: &str = "#!/bin/sh
set -e
CACHE_ID=\"abcdef0123456789\"
CACHE_DIR=\"${HOME}/.clj-pack/cache/${CACHE_ID}\"
PAYLOAD_SIZE=1234

if [ ! -d \"$CACHE_DIR/runtime\" ]; then
    mkdir -p \"$CACHE_DIR\"
    echo \"Extracting runtime (first run)...\" >&2
    tail -c \"$PAYLOAD_SIZE\" \"$0\" | tar xzf - -C \"$CACHE_DIR\"
fi

exec \"$CACHE_DIR/runtime/bin/java\" -jar \"$CACHE_DIR/app.jar\" \"$@\"
exit 0
# --- PAYLOAD BELOW ---
";

fn declared_size(binary: &[u8]) -> usize {
    let text = String::from_utf8_lossy(binary);
    let line = text
        .lines()
        .find(|l| l.starts_with("PAYLOAD_SIZE="))
        .unwrap();
    line["PAYLOAD_SIZE=".len()..].parse().unwrap()
}

#[test]
fn generate_renders_the_script() {
    assert_eq!(generate("abcdef0123456789", 1234, &[]), SCRIPT);
}

#[test]
fn generate_embeds_the_runtime_arguments() {
    let args = vec!["-Xmx512m".to_string(), "-Dfoo=bar baz".to_string()];
    let script = generate("abcdef0123456789", 1234, &args);
    let expected = SCRIPT.replace(
        "runtime/bin/java\" -jar",
        "runtime/bin/java\" -Xmx512m -Dfoo=bar baz -jar",
    );
    assert_eq!(script, expected);
    let one = generate("abcdef0123456789", 1234, &["-Xss1m".to_string()]);
    assert!(one.contains("exec \"$CACHE_DIR/runtime/bin/java\" -Xss1m -jar \"$CACHE_DIR/app.jar\" \"$@\"\n"));
}

#[test]
fn generate_writes_the_size_in_decimal() {
    assert!(generate("h", 0, &[]).contains("\nPAYLOAD_SIZE=0\n"));
    assert!(generate("h", 7, &[]).contains("\nPAYLOAD_SIZE=7\n"));
    assert!(generate("h", u64::MAX, &[]).contains("\nPAYLOAD_SIZE=18446744073709551615\n"));
    assert!(generate("h", 1000, &[]).contains("\nCACHE_ID=\"h\"\n"));
}

#[test]
fn create_binary_refuses_an_empty_payload() {
    assert_eq!(create_binary(&[], &[]), Err(PackError::EmptyPayload));
    assert_eq!(
        create_binary(&[], &["-Xmx1g".to_string()]),
        Err(PackError::EmptyPayload)
    );
}

#[test]
fn create_binary_of_one_byte() {
    let payload = [0x0du8];
    let binary = create_binary(&payload, &[]).unwrap();
    let script = generate(&hash_file(&payload), 1, &[]);
    assert_eq!(binary.len(), script.len() + 1);
    assert_eq!(&binary[..script.len()], script.as_bytes());
    assert_eq!(&binary[binary.len() - 1..], &payload);
    assert_eq!(declared_size(&binary), 1);
}

#[test]
fn create_binary_of_some_megabytes() {
    let payload: Vec<u8> = (0..3_000_001u32).map(|i| (i % 251) as u8).collect();
    let args = vec!["-Xmx512m".to_string()];
    let binary = create_binary(&payload, &args).unwrap();
    let script = generate(&hash_file(&payload), 3_000_001, &args);
    assert_eq!(binary.len(), script.len() + payload.len());
    assert_eq!(&binary[..script.len()], script.as_bytes());
    assert_eq!(&binary[binary.len() - payload.len()..], &payload[..]);
    assert_eq!(declared_size(&binary), payload.len());
}

#[test]
fn create_binary_does_not_touch_line_endings() {
    let payload = b"\r\n\n\r\x00\xff\x1a".to_vec();
    let binary = create_binary(&payload, &[]).unwrap();
    assert!(binary.ends_with(&payload));
    assert!(binary.starts_with(b"#!/bin/sh\nset -e\n"));
    assert_eq!(declared_size(&binary), 7);
}
