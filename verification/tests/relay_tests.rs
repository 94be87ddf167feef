use awake_on_proxy::relay::{RelayCommand, RelayDirection};

/// Drives one relay direction over `stream`, reading it in chunks of at
/// most `chunk_size` bytes, and returns everything the direction ordered
/// written, concatenated.
fn relay_in_chunks(stream: &[u8], chunk_size: usize) -> Vec<u8> {
    let mut direction = RelayDirection::new();
    let mut written: Vec<u8> = Vec::new();
    for chunk in stream.chunks(chunk_size) {
        let buffer: Vec<u8> = chunk.to_vec();
        match direction.on_read(&buffer, buffer.len()) {
            RelayCommand::Forward(data) => written.extend_from_slice(&data),
            RelayCommand::ShutdownPeer => panic!("direction closed mid-stream"),
        }
    }
    // the source closes: a zero-length read ends the direction
    match direction.on_read(&Vec::new(), 0) {
        RelayCommand::ShutdownPeer => {}
        RelayCommand::Forward(_) => panic!("zero read must shut the peer down"),
    }
    assert!(direction.done);
    written
}

fn pattern(len: usize) -> Vec<u8> {
    (0..len).map(|i| (i % 251) as u8).collect()
}

#[test]
fn relays_streams_unchanged_at_edge_sizes() {
    for &len in &[0usize, 1, 1023, 1024, 1025] {
        let stream = pattern(len);
        assert_eq!(relay_in_chunks(&stream, 1024), stream, "length {len}");
    }
}

#[test]
fn relays_large_stream_unchanged() {
    let stream = pattern(4 * 1024 * 1024);
    assert_eq!(relay_in_chunks(&stream, 1024), stream);
}

#[test]
fn relayed_bytes_independent_of_chunking() {
    let stream = pattern(10_000);
    let whole = relay_in_chunks(&stream, 10_000);
    for &chunk_size in &[1usize, 7, 1023, 1024, 1025, 4096] {
        assert_eq!(relay_in_chunks(&stream, chunk_size), whole);
    }
}

#[test]
fn zero_read_shuts_down_peer_without_forwarding() {
    let mut direction = RelayDirection::new();
    let buffer: Vec<u8> = b"pending".to_vec();
    // an orderly close (or read error) is reported as a zero-length read,
    // whatever the buffer still holds
    match direction.on_read(&buffer, 0) {
        RelayCommand::ShutdownPeer => {}
        RelayCommand::Forward(_) => panic!("zero read must shut the peer down"),
    }
    assert!(direction.done);
}

#[test]
fn forwards_only_the_bytes_read() {
    let mut direction = RelayDirection::new();
    let buffer: Vec<u8> = b"ping-and-stale-tail".to_vec();
    match direction.on_read(&buffer, 4) {
        RelayCommand::Forward(data) => assert_eq!(data, b"ping"),
        RelayCommand::ShutdownPeer => panic!("positive read must forward"),
    }
    assert!(!direction.done);
}
