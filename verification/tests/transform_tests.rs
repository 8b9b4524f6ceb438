use astra_stack::process_stream;
use astra_stack::transform_line;
use astra_stack::Deduplicator;
use astra_stack::IoError;
use astra_stack::TransformProfile;

#[test]
fn upper_trim_and_drop() {
    let profile = TransformProfile {
        trim: true,
        to_upper: true,
        drop_empty: true,
        deduplicate: false,
    };
    let mut dedup = Deduplicator::new();
    let out = transform_line("  hola  ", &profile, &mut dedup).unwrap();
    assert_eq!(out, "HOLA");
}

#[test]
fn stream_deduplication() {
    let input = "uno\ndos\nuno\n".as_bytes();
    let mut output = Vec::new();
    let profile = TransformProfile {
        trim: true,
        to_upper: false,
        drop_empty: true,
        deduplicate: true,
    };
    let stats = process_stream(input, &mut output, profile).unwrap();
    assert_eq!(stats.read, 3);
    assert_eq!(stats.written, 2);
    assert_eq!(stats.skipped, 1);
    let result = String::from_utf8(output).unwrap();
    assert_eq!(result, "uno\ndos\n");
}

#[test]
fn trims_and_uppercases() {
    let profile = TransformProfile {
        trim: true,
        to_upper: true,
        drop_empty: false,
        deduplicate: false,
    };
    let mut dedup = Deduplicator::new();
    let out = transform_line("  hola mundo  ", &profile, &mut dedup).unwrap();
    assert_eq!(out, "HOLA MUNDO");
}

#[test]
fn drops_empty_after_trim() {
    let profile = TransformProfile {
        trim: true,
        to_upper: false,
        drop_empty: true,
        deduplicate: false,
    };
    let mut dedup = Deduplicator::new();
    assert!(transform_line("   ", &profile, &mut dedup).is_none());
}

#[test]
fn deduplicates() {
    let profile = TransformProfile {
        trim: true,
        to_upper: false,
        drop_empty: false,
        deduplicate: true,
    };
    let mut dedup = Deduplicator::new();
    assert!(transform_line("hola", &profile, &mut dedup).is_some());
    assert!(transform_line("hola", &profile, &mut dedup).is_none());
}

#[test]
fn process_stream_counts() {
    let input = "a\nb\na\n".as_bytes();
    let mut output = Vec::new();
    let profile = TransformProfile {
        trim: true,
        to_upper: false,
        drop_empty: true,
        deduplicate: true,
    };
    let stats = process_stream(input, &mut output, profile).unwrap();
    assert_eq!(stats.read, 3);
    assert_eq!(stats.written, 2);
    assert_eq!(stats.skipped, 1);
    let text = String::from_utf8(output).unwrap();
    assert_eq!(text, "a\nb\n");
}

#[test]
fn default_profile_values() {
    let profile = TransformProfile::default();
    assert!(profile.trim);
    assert!(!profile.to_upper);
    assert!(profile.drop_empty);
    assert!(!profile.deduplicate);
}

#[test]
fn dedup_rejects_until_cleared() {
    let profile = TransformProfile {
        trim: false,
        to_upper: false,
        drop_empty: false,
        deduplicate: true,
    };
    let mut dedup = Deduplicator::new();
    assert!(transform_line("uno", &profile, &mut dedup).is_some());
    assert!(transform_line("uno", &profile, &mut dedup).is_none());
    assert!(transform_line("uno", &profile, &mut dedup).is_none());
    dedup.clear();
    assert!(transform_line("uno", &profile, &mut dedup).is_some());
}

#[test]
fn tracker_insert_and_clear() {
    let mut dedup = Deduplicator::new();
    assert!(dedup.insert("hola"));
    assert!(!dedup.insert("hola"));
    assert!(dedup.insert("mundo"));
    dedup.clear();
    assert!(dedup.insert("hola"));
}

#[test]
fn empty_drop_never_pollutes_dedup() {
    let profile = TransformProfile {
        trim: true,
        to_upper: false,
        drop_empty: true,
        deduplicate: true,
    };
    let mut dedup = Deduplicator::new();
    assert!(transform_line("   ", &profile, &mut dedup).is_none());
    assert!(transform_line("\t\t", &profile, &mut dedup).is_none());
    // The empty-check short-circuits before the duplicate-check, so the
    // empty string was never recorded.
    assert!(dedup.insert(""));
}

#[test]
fn uppercasing_is_ascii_only() {
    let profile = TransformProfile {
        trim: true,
        to_upper: true,
        drop_empty: false,
        deduplicate: false,
    };
    let mut dedup = Deduplicator::new();
    let out = transform_line("  mañana  ", &profile, &mut dedup).unwrap();
    assert_eq!(out, "MAñANA");
}

#[test]
fn empty_line_kept_when_drop_empty_off() {
    let profile = TransformProfile {
        trim: true,
        to_upper: true,
        drop_empty: false,
        deduplicate: false,
    };
    let mut dedup = Deduplicator::new();
    let out = transform_line("   ", &profile, &mut dedup).unwrap();
    assert_eq!(out, "");
}

#[test]
fn stream_normalizes_line_endings() {
    let input = "a\r\nb".as_bytes();
    let mut output = Vec::new();
    let profile = TransformProfile {
        trim: false,
        to_upper: false,
        drop_empty: false,
        deduplicate: false,
    };
    let stats = process_stream(input, &mut output, profile).unwrap();
    assert_eq!(stats.read, 2);
    assert_eq!(stats.written, 2);
    assert_eq!(stats.skipped, 0);
    let text = String::from_utf8(output).unwrap();
    assert_eq!(text, "a\nb\n");
}

#[test]
fn stream_counts_add_up_on_empty_input() {
    let input = "".as_bytes();
    let mut output = Vec::new();
    let stats = process_stream(input, &mut output, TransformProfile::default()).unwrap();
    assert_eq!(stats.read, 0);
    assert_eq!(stats.written, 0);
    assert_eq!(stats.skipped, 0);
    assert!(output.is_empty());
}

struct FailingWriter;

impl std::io::Write for FailingWriter {
    fn write(&mut self, _buf: &[u8]) -> std::io::Result<usize> {
        Err(std::io::Error::new(std::io::ErrorKind::Other, "sink is closed"))
    }

    fn flush(&mut self) -> std::io::Result<()> {
        Err(std::io::Error::new(std::io::ErrorKind::Other, "sink is closed"))
    }
}

#[test]
fn stream_write_failure_aborts_with_io_error() {
    let input = "hola\n".as_bytes();
    let profile = TransformProfile {
        trim: false,
        to_upper: false,
        drop_empty: false,
        deduplicate: false,
    };
    let result = process_stream(input, FailingWriter, profile);
    assert_eq!(result, Err(IoError));
}

struct FailingReader;

impl std::io::Read for FailingReader {
    fn read(&mut self, _buf: &mut [u8]) -> std::io::Result<usize> {
        Err(std::io::Error::new(std::io::ErrorKind::Other, "source is gone"))
    }
}

impl std::io::BufRead for FailingReader {
    fn fill_buf(&mut self) -> std::io::Result<&[u8]> {
        Err(std::io::Error::new(std::io::ErrorKind::Other, "source is gone"))
    }

    fn consume(&mut self, _amt: usize) {}
}

#[test]
fn stream_read_failure_aborts_with_io_error() {
    let mut output = Vec::new();
    let result = process_stream(FailingReader, &mut output, TransformProfile::default());
    assert_eq!(result, Err(IoError));
    assert!(output.is_empty());
}
