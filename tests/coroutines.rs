use std::io::{BufReader, Read as _};

use io_stream::coroutines::{Read, ReadExact, ReadToEnd, Write, DEFAULT_CAPACITY};
use io_stream::{Io, Output};

fn serve(reader: &mut impl std::io::Read, mut buffer: Vec<u8>) -> Io {
    let bytes_count = reader.read(&mut buffer).unwrap();
    Io::Read(Ok(Output {
        buffer,
        bytes_count,
    }))
}

/// A stream that delivers at most `chunk` bytes per read.
struct Trickle<'a> {
    bytes: &'a [u8],
    chunk: usize,
}

impl std::io::Read for Trickle<'_> {
    fn read(&mut self, buffer: &mut [u8]) -> std::io::Result<usize> {
        let n = self.chunk.min(buffer.len()).min(self.bytes.len());
        buffer[..n].copy_from_slice(&self.bytes[..n]);
        self.bytes = &self.bytes[n..];
        Ok(n)
    }
}

fn read_exact_from(bytes: &[u8], capacity: usize, count: usize) -> Result<Vec<u8>, Io> {
    let mut reader = BufReader::new(bytes);
    let mut read = ReadExact::with_capacity(capacity, count);
    let mut arg = None;
    loop {
        match read.resume(arg.take()) {
            Err(Io::Read(Err(buffer))) => arg = Some(serve(&mut reader, buffer)),
            other => return other,
        }
    }
}

fn read_exact_trickle(
    bytes: &[u8],
    chunk: usize,
    capacity: usize,
    count: usize,
) -> (Result<Vec<u8>, Io>, Vec<u8>) {
    let mut stream = Trickle { bytes, chunk };
    let mut read = ReadExact::with_capacity(capacity, count);
    let mut arg = None;
    loop {
        match read.resume(arg.take()) {
            Err(Io::Read(Err(buffer))) => {
                assert!(!buffer.is_empty());
                arg = Some(serve(&mut stream, buffer));
            }
            other => return (other, stream.bytes.to_vec()),
        }
    }
}

#[test]
fn read_read() {
    let mut reader = BufReader::new("abcdef".as_bytes());

    let mut read = Read::with_capacity(4);
    let mut arg = None;

    let output = loop {
        match read.resume(arg.take()) {
            Ok(output) => break output,
            Err(Io::Read(Err(mut buffer))) => {
                let bytes_count = reader.read(&mut buffer).unwrap();
                let output = Output {
                    buffer,
                    bytes_count,
                };
                arg = Some(Io::Read(Ok(output)))
            }
            Err(io) => unreachable!("unexpected I/O: {io:?}"),
        }
    };

    assert_eq!(output.bytes(), b"abcd");

    read.replace(output.buffer);

    let output = loop {
        match read.resume(arg.take()) {
            Ok(output) => break output,
            Err(Io::Read(Err(mut buffer))) => {
                let bytes_count = reader.read(&mut buffer).unwrap();
                let output = Output {
                    buffer,
                    bytes_count,
                };
                arg = Some(Io::Read(Ok(output)))
            }
            Err(io) => unreachable!("unexpected I/O: {io:?}"),
        }
    };

    assert_eq!(output.bytes(), b"ef");

    read.replace(output.buffer);

    let output = loop {
        match read.resume(arg.take()) {
            Ok(output) => break output,
            Err(Io::Read(Err(mut buffer))) => {
                let bytes_count = reader.read(&mut buffer).unwrap();
                let output = Output {
                    buffer,
                    bytes_count,
                };
                arg = Some(Io::Read(Ok(output)))
            }
            Err(io) => unreachable!("unexpected I/O: {io:?}"),
        }
    };

    assert_eq!(output.bytes_count, 0);
}

#[test]
fn read_exact_smaller_capacity() {
    let mut reader = BufReader::new("abcdef".as_bytes());

    let mut read = ReadExact::with_capacity(3, 4);
    let mut arg = None;

    let output = loop {
        match read.resume(arg.take()) {
            Ok(output) => break output,
            Err(Io::Read(Err(mut buffer))) => {
                let bytes_count = reader.read(&mut buffer).unwrap();
                let output = Output {
                    buffer,
                    bytes_count,
                };
                arg = Some(Io::Read(Ok(output)))
            }
            Err(io) => unreachable!("unexpected I/O: {io:?}"),
        }
    };

    assert_eq!(output, b"abcd");

    let mut remaining = vec![0; 4];
    let bytes_count = reader.read(&mut remaining).unwrap();

    assert_eq!(bytes_count, 2);
    assert_eq!(&remaining[..bytes_count], b"ef");
}

#[test]
fn read_exact_bigger_capacity() {
    let mut reader = BufReader::new("abcdef".as_bytes());

    let mut read = ReadExact::with_capacity(5, 4);
    let mut arg = None;

    let output = loop {
        match read.resume(arg.take()) {
            Ok(output) => break output,
            Err(Io::Read(Err(mut buffer))) => {
                let bytes_count = reader.read(&mut buffer).unwrap();
                let output = Output {
                    buffer,
                    bytes_count,
                };
                arg = Some(Io::Read(Ok(output)))
            }
            Err(io) => unreachable!("unexpected I/O: {io:?}"),
        }
    };

    assert_eq!(output, b"abcd");

    let mut remaining = vec![0; 4];
    let bytes_count = reader.read(&mut remaining).unwrap();

    assert_eq!(bytes_count, 2);
    assert_eq!(&remaining[..bytes_count], b"ef");
}

#[test]
fn read_to_end() {
    let mut reader = BufReader::new("abcdef".as_bytes());

    let mut read = ReadToEnd::with_capacity(4);
    let mut arg = None;

    let output = loop {
        match read.resume(arg.take()) {
            Ok(output) => break output,
            Err(Io::Read(Err(mut buffer))) => {
                let bytes_count = reader.read(&mut buffer).unwrap();
                let output = Output {
                    buffer,
                    bytes_count,
                };
                arg = Some(Io::Read(Ok(output)))
            }
            Err(io) => unreachable!("unexpected I/O: {io:?}"),
        }
    };

    assert_eq!(output, b"abcdef");
}

#[test]
fn read_chunks_round_trip() {
    let source = b"the quick brown fox";
    let mut reader = BufReader::new(&source[..]);
    let mut read = Read::with_capacity(3);
    let mut gathered = Vec::new();
    let mut chunks = 0;
    loop {
        let request = read.resume(None);
        let Err(Io::Read(Err(buffer))) = request else {
            panic!("expected a read request, got {request:?}");
        };
        let output = read.resume(Some(serve(&mut reader, buffer))).unwrap();
        if output.bytes_count == 0 {
            break;
        }
        chunks += 1;
        gathered.extend_from_slice(output.bytes());
        read.replace(output.buffer);
    }
    assert_eq!(gathered, source);
    assert_eq!(chunks, 7);
}

#[test]
fn read_default_capacity() {
    assert_eq!(DEFAULT_CAPACITY, 1024);
    assert_eq!(Read::new().capacity(), 1024);
    assert_eq!(Read::default().capacity(), 1024);
    let Err(Io::Read(Err(buffer))) = Read::new().resume(None) else {
        panic!("expected a read request");
    };
    assert_eq!(buffer, vec![0; 1024]);
}

#[test]
fn read_replace_takes_buffer_length() {
    let mut read = Read::with_capacity(8);
    read.replace(vec![7; 3]);
    assert_eq!(read.capacity(), 3);
    assert_eq!(read.resume(None), Err(Io::Read(Err(vec![7; 3]))));
}

#[test]
fn read_resume_twice_is_usage_error() {
    let mut read = Read::with_capacity(4);
    assert_eq!(read.resume(None), Err(Io::Read(Err(vec![0; 4]))));
    assert_eq!(
        read.resume(None),
        Err(Io::Error("stream error: read buffer not initialized".to_string()))
    );
}

#[test]
fn read_wrong_kind_is_usage_error() {
    let mut read = Read::with_capacity(4);
    let output = Output {
        buffer: vec![1, 2],
        bytes_count: 2,
    };
    assert_eq!(
        read.resume(Some(Io::Write(Ok(output)))),
        Err(Io::Error(
            "stream error: expected read output, got a write output".to_string()
        ))
    );
    assert_eq!(
        read.resume(Some(Io::Error("boom".to_string()))),
        Err(Io::Error("stream error: expected read output, got an error".to_string()))
    );
}

#[test]
fn read_pending_request_is_usage_error() {
    let mut read = Read::with_capacity(2);
    assert_eq!(
        read.resume(Some(Io::Read(Err(vec![5; 6])))),
        Err(Io::Error(
            "stream error: expected read output, got a pending read".to_string()
        ))
    );
    assert_eq!(read.capacity(), 2);
    assert_eq!(read.resume(None), Err(Io::Read(Err(vec![0; 2]))));
}

#[test]
fn read_end_of_stream_is_empty_output() {
    let mut reader = BufReader::new(&b""[..]);
    let mut read = Read::with_capacity(4);
    let Err(Io::Read(Err(buffer))) = read.resume(None) else {
        panic!("expected a read request");
    };
    let output = read.resume(Some(serve(&mut reader, buffer))).unwrap();
    assert_eq!(output.bytes_count, 0);
    assert!(output.bytes().is_empty());
}

#[test]
fn write_short_write_is_reported() {
    let mut write = Write::new(b"data".to_vec());
    let Err(Io::Write(Err(bytes))) = write.resume(None) else {
        panic!("expected a write request");
    };
    assert_eq!(bytes, b"data");
    let output = Output {
        buffer: bytes,
        bytes_count: 2,
    };
    let done = write.resume(Some(Io::Write(Ok(output)))).unwrap();
    assert_eq!(done.bytes_count, 2);
    assert_eq!(done.bytes(), b"da");
    assert_eq!(
        write.resume(None),
        Err(Io::Error("stream error: write bytes not ready".to_string()))
    );
}

#[test]
fn write_resume_twice_is_usage_error() {
    let mut write = Write::new(vec![1, 2, 3]);
    assert_eq!(write.resume(None), Err(Io::Write(Err(vec![1, 2, 3]))));
    assert_eq!(
        write.resume(None),
        Err(Io::Error("stream error: write bytes not ready".to_string()))
    );
}

#[test]
fn write_extend_and_replace() {
    let mut write = Write::new(b"ab".to_vec());
    write.extend(b"cd".to_vec());
    assert_eq!(write.resume(None), Err(Io::Write(Err(b"abcd".to_vec()))));
    write.extend(b"ef".to_vec());
    assert_eq!(write.resume(None), Err(Io::Write(Err(b"ef".to_vec()))));
    write.replace(b"gh".to_vec());
    write.replace(b"ij".to_vec());
    assert_eq!(write.resume(None), Err(Io::Write(Err(b"ij".to_vec()))));
    let mut empty = Write::default();
    assert_eq!(
        empty.resume(None),
        Err(Io::Error("stream error: write bytes not ready".to_string()))
    );
}

#[test]
fn write_wrong_kind_is_usage_error() {
    let mut write = Write::new(b"ab".to_vec());
    assert_eq!(
        write.resume(Some(Io::Write(Err(vec![1])))),
        Err(Io::Error(
            "stream error: expected write output, got a pending write".to_string()
        ))
    );
    let output = Output {
        buffer: vec![1],
        bytes_count: 1,
    };
    assert_eq!(
        write.resume(Some(Io::Read(Ok(output)))),
        Err(Io::Error(
            "stream error: expected write output, got a read output".to_string()
        ))
    );
}

#[test]
fn read_exact_capacity_one() {
    assert_eq!(read_exact_from(b"abcdef", 1, 4), Ok(b"abcd".to_vec()));
    assert_eq!(read_exact_from(b"abcdef", 2, 6), Ok(b"abcdef".to_vec()));
}

#[test]
fn read_exact_zero_count_needs_no_io() {
    let mut read = ReadExact::new(0);
    assert_eq!(read.resume(None), Ok(Vec::new()));
    assert_eq!(
        read.resume(None),
        Err(Io::Error("stream error: read exact buffer not ready".to_string()))
    );
}

#[test]
fn read_exact_early_end_of_stream() {
    let eof = Err(Io::Error(
        "stream error: read 0 bytes, unexpected EOF?".to_string(),
    ));
    assert_eq!(read_exact_from(b"abc", 2, 5), eof);
    assert_eq!(read_exact_from(b"", 4, 3), eof);
    assert_eq!(read_exact_from(b"abcd", 2, 5), eof);
    assert_eq!(read_exact_from(b"abc", 0, 1), eof);
}

#[test]
fn read_exact_stream_ending_in_last_chunk() {
    let eof = Err(Io::Error(
        "stream error: read 0 bytes, unexpected EOF?".to_string(),
    ));
    assert_eq!(read_exact_from(b"abc", 4, 4), eof);
    assert_eq!(read_exact_trickle(b"abc", 2, 4, 4).0, eof);
    let mut default = ReadExact::new(4);
    let mut reader = BufReader::new(&b"abc"[..]);
    let mut arg = None;
    let result = loop {
        match default.resume(arg.take()) {
            Err(Io::Read(Err(buffer))) => arg = Some(serve(&mut reader, buffer)),
            other => break other,
        }
    };
    assert_eq!(result, eof);
}

#[test]
fn read_exact_short_chunks() {
    let (result, rest) = read_exact_trickle(b"abcdef", 3, 4, 4);
    assert_eq!(result, Ok(b"abcd".to_vec()));
    assert_eq!(rest, b"ef");
    let (result, rest) = read_exact_trickle(b"abcdef", 1, 4, 5);
    assert_eq!(result, Ok(b"abcde".to_vec()));
    assert_eq!(rest, b"f");
    let (result, rest) = read_exact_trickle(b"abcdef", 2, 5, 6);
    assert_eq!(result, Ok(b"abcdef".to_vec()));
    assert!(rest.is_empty());
}

#[test]
fn read_exact_oversized_chunk_is_usage_error() {
    let mut read = ReadExact::with_capacity(2, 2);
    assert_eq!(read.resume(None), Err(Io::Read(Err(vec![0; 2]))));
    let output = Output {
        buffer: b"abc".to_vec(),
        bytes_count: 3,
    };
    assert_eq!(
        read.resume(Some(Io::Read(Ok(output)))),
        Err(Io::Error("stream error: read more bytes than were due".to_string()))
    );
}

#[test]
fn read_exact_finished_refuses_resume() {
    let mut read = ReadExact::with_capacity(4, 2);
    let Err(Io::Read(Err(buffer))) = read.resume(None) else {
        panic!("expected a read request");
    };
    let mut reader = BufReader::new(&b"xy"[..]);
    assert_eq!(read.resume(Some(serve(&mut reader, buffer))), Ok(b"xy".to_vec()));
    let not_ready = Err(Io::Error(
        "stream error: read exact buffer not ready".to_string(),
    ));
    assert_eq!(read.resume(None), not_ready);
    assert_eq!(read.resume(Some(Io::Read(Err(vec![0; 2])))), not_ready);
}

#[test]
fn read_exact_shrinks_the_request() {
    let mut read = ReadExact::with_capacity(8, 3);
    assert_eq!(read.resume(None), Err(Io::Read(Err(vec![0; 3]))));
    let mut other = ReadExact::new(2000);
    assert_eq!(other.resume(None), Err(Io::Read(Err(vec![0; 1024]))));
}

#[test]
fn read_exact_resume_twice_is_usage_error() {
    let mut read = ReadExact::with_capacity(4, 8);
    assert_eq!(read.resume(None), Err(Io::Read(Err(vec![0; 4]))));
    assert_eq!(
        read.resume(None),
        Err(Io::Error("stream error: read buffer not initialized".to_string()))
    );
}

#[test]
fn read_to_end_any_capacity() {
    for capacity in [1, 2, 4, 6, 7, 100] {
        let mut reader = BufReader::new(&b"abcdef"[..]);
        let mut read = ReadToEnd::with_capacity(capacity);
        let mut arg = None;
        let output = loop {
            match read.resume(arg.take()) {
                Ok(output) => break output,
                Err(Io::Read(Err(buffer))) => arg = Some(serve(&mut reader, buffer)),
                Err(io) => panic!("unexpected I/O: {io:?}"),
            }
        };
        assert_eq!(output, b"abcdef");
    }
}

#[test]
fn read_to_end_short_chunks() {
    let mut stream = Trickle {
        bytes: b"abcdefg",
        chunk: 2,
    };
    let mut read = ReadToEnd::with_capacity(3);
    let mut arg = None;
    let output = loop {
        match read.resume(arg.take()) {
            Ok(output) => break output,
            Err(Io::Read(Err(buffer))) => arg = Some(serve(&mut stream, buffer)),
            Err(io) => panic!("unexpected I/O: {io:?}"),
        }
    };
    assert_eq!(output, b"abcdefg");
}

#[test]
fn read_to_end_finished_refuses_resume() {
    let mut read = ReadToEnd::with_capacity(4);
    let Err(Io::Read(Err(buffer))) = read.resume(None) else {
        panic!("expected a read request");
    };
    let mut reader = BufReader::new(&b""[..]);
    assert_eq!(read.resume(Some(serve(&mut reader, buffer))), Ok(Vec::new()));
    let not_ready = Err(Io::Error(
        "stream error: read to end buffer not ready".to_string(),
    ));
    assert_eq!(read.resume(Some(Io::Read(Err(vec![0; 4])))), not_ready);
    assert_eq!(read.resume(None), not_ready);
    let output = Output {
        buffer: vec![0; 4],
        bytes_count: 0,
    };
    assert_eq!(read.resume(Some(Io::Read(Ok(output)))), not_ready);
}

#[test]
fn io_clone_is_equal() {
    let output = Output {
        buffer: b"ab".to_vec(),
        bytes_count: 1,
    };
    let io = Io::Write(Ok(output));
    assert_eq!(io.clone(), io);
    let pending = Io::Read(Err(vec![1, 2]));
    assert_eq!(pending.clone(), pending);
}

#[test]
fn read_to_end_zero_capacity_stops_at_once() {
    let mut reader = BufReader::new(&b"abc"[..]);
    let mut read = ReadToEnd::with_capacity(0);
    let Err(Io::Read(Err(buffer))) = read.resume(None) else {
        panic!("expected a read request");
    };
    assert!(buffer.is_empty());
    assert_eq!(read.resume(Some(serve(&mut reader, buffer))), Ok(Vec::new()));
}

#[test]
fn read_to_end_resume_twice_is_usage_error() {
    let mut read = ReadToEnd::default();
    assert_eq!(read.resume(None), Err(Io::Read(Err(vec![0; 1024]))));
    assert_eq!(
        read.resume(None),
        Err(Io::Error("stream error: read buffer not initialized".to_string()))
    );
}

#[test]
fn io_err_prefixes_message() {
    assert_eq!(Io::err("boom"), Io::Error("stream error: boom".to_string()));
    assert_eq!(Io::err(""), Io::Error("stream error: ".to_string()));
}

#[test]
fn output_bytes_is_prefix() {
    let output = Output {
        buffer: b"abcdef".to_vec(),
        bytes_count: 3,
    };
    assert_eq!(output.bytes(), b"abc");
}
