use crc_stream::ByteSource;
use crc_stream::CrcReader;
use crc_stream::MemSource;

/// A test source that hands out one scripted result per read call: either
/// some bytes, or an error.  Extra capacity in the buffer is deliberately
/// scribbled over, so only the reported count separates real bytes from
/// garbage.
struct ScriptedSource {
    script: Vec<Result<Vec<u8>, String>>,
    next: usize,
}

impl ScriptedSource {
    fn new(script: Vec<Result<Vec<u8>, String>>) -> ScriptedSource {
        ScriptedSource { script, next: 0 }
    }
}

impl ByteSource for ScriptedSource {
    type Error = String;

    fn read(&mut self, buf: &mut Vec<u8>) -> Result<usize, String> {
        for slot in buf.iter_mut() {
            *slot = 0xAA;
        }
        if self.next >= self.script.len() {
            return Ok(0);
        }
        let step = self.script[self.next].clone();
        self.next += 1;
        match step {
            Ok(bytes) => {
                assert!(bytes.len() <= buf.len());
                buf[..bytes.len()].copy_from_slice(&bytes);
                Ok(bytes.len())
            }
            Err(e) => Err(e),
        }
    }
}

#[test]
fn two_reads_give_whole_stream_checksum() {
    let source = MemSource::new(b"123456789".to_vec());
    let mut reader = CrcReader::new(source);

    let mut buf = vec![0u8; 5];
    assert_eq!(reader.read(&mut buf), Ok(5));
    assert_eq!(&buf, b"12345");

    assert_eq!(reader.read(&mut buf), Ok(4));
    assert_eq!(&buf[..4], b"6789");

    assert_eq!(reader.crc().sum(), 0xCBF43926);
    assert_eq!(reader.crc().amt(), 9);
}

#[test]
fn short_read_feeds_only_the_filled_prefix() {
    let data: Vec<u8> = (1u8..=37).collect();
    let source = ScriptedSource::new(vec![Ok(data.clone())]);
    let mut reader = CrcReader::new(source);

    let mut buf = vec![0u8; 100];
    assert_eq!(reader.read(&mut buf), Ok(37));
    // The source filled the rest of the buffer with garbage; none of it
    // may reach the accumulator.
    assert_eq!(buf[37], 0xAA);
    assert_eq!(reader.crc().sum(), crc32fast::hash(&data));
    assert_eq!(reader.crc().amt(), 37);
}

#[test]
fn error_passes_through_and_leaves_accumulator_alone() {
    let source = ScriptedSource::new(vec![
        Ok(b"abc".to_vec()),
        Err("boom".to_string()),
        Ok(b"def".to_vec()),
    ]);
    let mut reader = CrcReader::new(source);

    let mut buf = vec![0u8; 8];
    assert_eq!(reader.read(&mut buf), Ok(3));
    let sum_before = reader.crc().sum();
    let amt_before = reader.crc().amt();

    assert_eq!(reader.read(&mut buf), Err("boom".to_string()));
    assert_eq!(reader.crc().sum(), sum_before);
    assert_eq!(reader.crc().amt(), amt_before);

    // The reader retries nothing and recovers nothing: the next read is
    // simply forwarded again.
    assert_eq!(reader.read(&mut buf), Ok(3));
    assert_eq!(reader.crc().sum(), crc32fast::hash(b"abcdef"));
    assert_eq!(reader.crc().amt(), 6);
}

#[test]
fn end_of_stream_leaves_accumulator_alone() {
    let source = MemSource::new(b"xy".to_vec());
    let mut reader = CrcReader::new(source);

    let mut buf = vec![0u8; 4];
    assert_eq!(reader.read(&mut buf), Ok(2));
    let sum_before = reader.crc().sum();

    assert_eq!(reader.read(&mut buf), Ok(0));
    assert_eq!(reader.crc().sum(), sum_before);
    assert_eq!(reader.crc().amt(), 2);

    let empty = MemSource::new(Vec::new());
    let mut reader = CrcReader::new(empty);
    assert_eq!(reader.read(&mut buf), Ok(0));
    assert_eq!(reader.crc().sum(), 0);
    assert_eq!(reader.crc().amt(), 0);
}

#[test]
fn unwrap_returns_source_at_its_position() {
    let mut wrapped = CrcReader::new(MemSource::new(b"123456789".to_vec()));
    let mut buf = vec![0u8; 5];
    assert_eq!(wrapped.read(&mut buf), Ok(5));
    let mut recovered = wrapped.unwrap();

    let mut bare = MemSource::new(b"123456789".to_vec());
    assert_eq!(bare.read(&mut buf), Ok(5));

    // The recovered source yields exactly what the never-wrapped one does.
    let mut rest_recovered = vec![0u8; 10];
    let mut rest_bare = vec![0u8; 10];
    assert_eq!(recovered.read(&mut rest_recovered), Ok(4));
    assert_eq!(bare.read(&mut rest_bare), Ok(4));
    assert_eq!(rest_recovered, rest_bare);
    assert_eq!(&rest_recovered[..4], b"6789");
}

#[test]
fn inner_borrow_bypasses_the_checksum() {
    let mut reader = CrcReader::new(MemSource::new(b"abcdef".to_vec()));
    let mut buf = vec![0u8; 2];

    assert_eq!(reader.read(&mut buf), Ok(2));  // "ab", checksummed
    assert_eq!(reader.inner().read(&mut buf), Ok(2));  // "cd", bypassed
    assert_eq!(reader.read(&mut buf), Ok(2));  // "ef", checksummed

    assert_eq!(reader.crc().amt(), 4);
    assert_eq!(reader.crc().sum(), crc32fast::hash(b"abef"));
}

#[test]
fn mem_source_fills_only_what_it_has() {
    let mut source = MemSource::new(b"xyz".to_vec());
    let mut buf = vec![0xFFu8; 5];
    assert_eq!(source.read(&mut buf), Ok(3));
    assert_eq!(&buf, &[b'x', b'y', b'z', 0xFF, 0xFF]);
    assert_eq!(source.read(&mut buf), Ok(0));
}
