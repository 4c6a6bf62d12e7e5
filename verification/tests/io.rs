use carli::io::memory;
use carli::io::standard;
use carli::io::SeekFrom;
use carli::io::Shared;
use carli::io::Stream;
use carli::io::Streams;
use std::io;

#[test]
fn stream_from_buffer() {
    let _: Stream = Vec::new().into();
}

#[test]
fn stream_from_stderr() {
    let _: Stream = io::stderr().into();
}

#[test]
fn stream_from_stdin() {
    let _: Stream = io::stdin().into();
}

#[test]
fn stream_from_stdout() {
    let _: Stream = io::stdout().into();
}

#[test]
fn stream_read() {
    let mut stream: Stream = b"test".to_vec().into();

    let mut buffer = Vec::new();

    stream.read_to_end(&mut buffer).unwrap();

    assert_eq!(buffer, b"test");
}

#[test]
fn stream_seek() {
    let mut stream: Stream = b"test".to_vec().into();

    stream.seek(SeekFrom::Start(2)).unwrap();

    let mut buffer = Vec::new();

    stream.read_to_end(&mut buffer).unwrap();

    assert_eq!(buffer, b"st");
}

#[test]
fn stream_to_string() {
    let mut stream: Stream = b"test".to_vec().into();

    let string = stream.to_string().unwrap();

    assert_eq!(string, "test");
}

#[test]
fn stream_to_string_lossy() {
    let mut stream: Stream = b"test".to_vec().into();

    let string = stream.to_string_lossy();

    assert_eq!(string, "test");
}

#[test]
fn stream_write() {
    let mut stream: Stream = Vec::new().into();

    stream.write(b"test").unwrap();

    let bytes = stream.snapshot().expect("Unexpected StreamKind.");

    assert_eq!(bytes, b"test");
}

#[test]
fn stream_write_round_trip() {
    let mut stream: Stream = Vec::new().into();

    stream.write(b"Hello, world!").unwrap();
    stream.seek(SeekFrom::Start(0)).unwrap();

    assert_eq!(stream.to_string().unwrap(), "Hello, world!");
}

#[test]
fn stream_write_overwrites_at_position() {
    let mut stream: Stream = b"test".to_vec().into();

    stream.seek(SeekFrom::Start(2)).unwrap();
    stream.write(b"xy").unwrap();
    stream.seek(SeekFrom::Start(0)).unwrap();

    assert_eq!(stream.to_string().unwrap(), "texy");
}

#[test]
fn stream_to_string_invalid_utf8() {
    let mut stream: Stream = vec![0xffu8, 0xfe].into();

    assert!(stream.to_string().is_err());
}

#[test]
fn stream_to_string_lossy_invalid_utf8() {
    let mut stream: Stream = vec![0xffu8, b'a'].into();

    assert_eq!(stream.to_string_lossy(), "\u{fffd}a");
}

#[test]
fn stream_seek_from_end() {
    let mut stream: Stream = b"test".to_vec().into();

    let reached = stream.seek(SeekFrom::End(-2)).unwrap();

    assert_eq!(reached, 2);
    assert_eq!(stream.to_string().unwrap(), "st");
}

#[test]
fn stream_seek_from_current() {
    let mut stream: Stream = b"test".to_vec().into();

    stream.seek(SeekFrom::Start(3)).unwrap();
    let reached = stream.seek(SeekFrom::Current(-2)).unwrap();

    assert_eq!(reached, 1);
    assert_eq!(stream.to_string().unwrap(), "est");
}

#[test]
fn stream_seek_negative_is_error() {
    let mut stream: Stream = b"test".to_vec().into();

    assert!(stream.seek(SeekFrom::End(-5)).is_err());

    assert_eq!(stream.to_string().unwrap(), "test");
}

#[test]
fn stream_read_partial() {
    let mut stream: Stream = b"test".to_vec().into();

    let mut buffer = Vec::new();

    assert_eq!(stream.read(&mut buffer, 2).unwrap(), 2);
    assert_eq!(buffer, b"te");

    assert_eq!(stream.read(&mut buffer, 10).unwrap(), 2);
    assert_eq!(buffer, b"test");
}

#[test]
fn stream_flush() {
    let mut stream: Stream = b"test".to_vec().into();

    stream.flush().unwrap();

    assert_eq!(stream.to_string().unwrap(), "test");
}

#[test]
fn streams_error() {
    let streams = memory();

    streams.error(|stream| stream.write(b"test").unwrap());

    let bytes = streams.error_snapshot().expect("Expected StreamKind::Memory.");

    assert_eq!(bytes, b"test");
}

#[test]
fn streams_input() {
    let streams = memory();

    streams.input(|stream| {
        stream.write(b"test").unwrap();
        stream.seek(SeekFrom::Start(0)).unwrap();
    });

    let mut buffer = Vec::new();

    streams.input(|stream| stream.read_to_end(&mut buffer).unwrap());

    assert_eq!(buffer, b"test");
}

#[test]
fn streams_memory() {
    let _: Streams = memory();
}

#[test]
fn streams_output() {
    let streams = memory();

    streams.output(|stream| stream.write(b"test").unwrap());

    let bytes = streams.output_snapshot().expect("Expected StreamKind::Memory.");

    assert_eq!(bytes, b"test");
}

#[test]
fn streams_standard() {
    let _: Streams = standard();
}

#[test]
fn streams_fresh_memory_snapshots_empty() {
    let streams = memory();

    assert_eq!(streams.error_snapshot().unwrap(), b"");
    assert_eq!(streams.input_snapshot().unwrap(), b"");
    assert_eq!(streams.output_snapshot().unwrap(), b"");
}

#[test]
fn streams_output_write_leaves_other_roles_empty() {
    let streams = memory();

    streams.output(|stream| stream.write(b"Hello, world!").unwrap());

    assert_eq!(streams.output_snapshot().unwrap(), b"Hello, world!");
    assert_eq!(streams.error_snapshot().unwrap(), b"");
    assert_eq!(streams.input_snapshot().unwrap(), b"");
}

#[test]
fn streams_seed_input() {
    let streams = memory();

    assert!(streams.seed_input(b"seeded".to_vec()));

    let text = streams.input(|stream| stream.to_string_lossy());

    assert_eq!(text, "seeded");
}

#[test]
fn streams_reset_roles() {
    let streams = memory();

    streams.output(|stream| stream.write(b"output").unwrap());
    streams.error(|stream| stream.write(b"error").unwrap());
    assert!(streams.seed_input(b"input".to_vec()));

    assert!(streams.reset_output());
    assert!(streams.reset_error());
    assert!(streams.reset_input());

    assert_eq!(streams.output_snapshot().unwrap(), b"");
    assert_eq!(streams.error_snapshot().unwrap(), b"");
    assert_eq!(streams.input_snapshot().unwrap(), b"");
}

#[test]
fn streams_to_handles_lock_independently() {
    let streams = memory();

    let error = streams.to_error();
    let output = streams.to_output();

    let mut error_guard = error.lock().unwrap();
    let mut output_guard = output.lock().unwrap();

    error_guard.write(b"e").unwrap();
    output_guard.write(b"o").unwrap();

    drop(error_guard);
    drop(output_guard);

    assert_eq!(streams.error_snapshot().unwrap(), b"e");
    assert_eq!(streams.output_snapshot().unwrap(), b"o");
}
