use chunker::Chunk;
use chunker::ChunkError;

#[test]
fn test_chunk() {
    let data = vec![0; 1000];
    let chunk = Chunk::new(250, 0x10, &data);
    let mut iter = chunk;
    assert_eq!(
        iter.next().unwrap().0.len() + core::mem::size_of::<usize>() * 2 + 1,
        250
    );
    assert_eq!(iter.next().unwrap().0.len() + core::mem::size_of::<usize>(), 250);
    assert_eq!(iter.next().unwrap().0.len() + core::mem::size_of::<usize>(), 250);
}

#[test]
fn test_header() {
    let data = vec![0; 1000];
    let chunk = Chunk::new(250, 0x10, &data);
    let header = chunk.header();

    assert_eq!(header.len(), core::mem::size_of::<usize>() + 1);
    assert_eq!(header, [0x10, 0xE8, 0x03, 0, 0, 0, 0, 0, 0]);
}

#[test]
fn chunks_concatenated_rebuild_the_payload() {
    let data: Vec<u8> = (0..1000u32).map(|i| (i % 251) as u8).collect();
    let mut chunk = Chunk::new(250, 0x42, &data);
    let mut rebuilt: Vec<u8> = Vec::new();
    let mut yields: usize = 0;
    let mut last_index: Option<usize> = None;
    while let Some((slice, index)) = chunk.next() {
        match last_index {
            Some(prev) => assert_eq!(index, prev + 1),
            None => assert_eq!(index, 0),
        }
        last_index = Some(index);
        rebuilt.extend_from_slice(slice);
        yields += 1;
    }
    assert_eq!(rebuilt, data);
    assert!(yields <= data.len());
}

#[test]
fn chunk_lengths_follow_the_frame_budget() {
    let data = vec![7u8; 1000];
    let chunk = Chunk::new(250, 0x10, &data);
    // first frame: 250 bytes minus the 9-byte header minus the 8-byte prefix
    assert_eq!(chunk.chunk(Some(0)).unwrap().0.len(), 233);
    // later frames: 250 bytes minus the 8-byte prefix
    assert_eq!(chunk.chunk(Some(1)).unwrap().0.len(), 242);
    assert_eq!(chunk.chunk(Some(2)).unwrap().0.len(), 242);
    assert_eq!(chunk.chunk(Some(3)).unwrap().0.len(), 242);
    // the last chunk takes what remains
    assert_eq!(chunk.chunk(Some(4)).unwrap().0.len(), 1000 - 233 - 3 * 242);
    assert!(chunk.chunk(Some(5)).is_none());
}

#[test]
fn explicit_index_leaves_the_cursor_alone() {
    let data = vec![1u8; 600];
    let mut chunk = Chunk::new(250, 0x01, &data);
    assert_eq!(chunk.counter(), 0);
    let (_, index) = chunk.chunk(Some(2)).unwrap();
    assert_eq!(index, 2);
    assert_eq!(chunk.counter(), 0);
    let (_, index) = chunk.next().unwrap();
    assert_eq!(index, 0);
    assert_eq!(chunk.counter(), 1);
    let (slice_by_cursor, index) = chunk.chunk(None).unwrap();
    assert_eq!(index, 1);
    assert_eq!(slice_by_cursor.len(), 242);
    assert_eq!(chunk.counter(), 1);
}

#[test]
fn production_is_not_restartable_once_exhausted() {
    let data = vec![9u8; 10];
    let mut chunk = Chunk::new(250, 0x02, &data);
    let (slice, index) = chunk.next().unwrap();
    assert_eq!((slice.len(), index), (10, 0));
    assert!(chunk.next().is_none());
    assert!(chunk.next().is_none());
    assert_eq!(chunk.counter(), 1);
}

#[test]
fn payload_of_an_exact_multiple_ends_with_an_empty_chunk() {
    // 233 bytes fill the first frame exactly: the next chunk starts exactly
    // at the payload's end and is empty, one more is past the end.
    let data = vec![3u8; 233];
    let chunk = Chunk::new(250, 0x03, &data);
    assert_eq!(chunk.chunk(Some(0)).unwrap().0.len(), 233);
    let (tail, index) = chunk.chunk(Some(1)).unwrap();
    assert_eq!((tail.len(), index), (0, 1));
    assert!(chunk.chunk(Some(2)).is_none());
}

#[test]
fn empty_payload_yields_one_empty_chunk() {
    let data: Vec<u8> = Vec::new();
    let mut chunk = Chunk::new(250, 0x00, &data);
    let (slice, index) = chunk.next().unwrap();
    assert_eq!((slice.len(), index), (0, 0));
    assert!(chunk.next().is_none());
}

#[test]
fn minimum_frame_size_still_makes_progress() {
    // with 17-byte frames the header fills the whole first frame, so the
    // first chunk carries no data and each later frame carries 9 bytes
    let data = vec![8u8; 20];
    let chunk = Chunk::new(17, 0x05, &data);
    assert_eq!(chunk.chunk(Some(0)).unwrap().0.len(), 0);
    assert_eq!(chunk.chunk(Some(1)).unwrap().0.len(), 9);
    assert_eq!(chunk.chunk(Some(2)).unwrap().0.len(), 9);
    assert_eq!(chunk.chunk(Some(3)).unwrap().0.len(), 2);
    assert!(chunk.chunk(Some(4)).is_none());
}

#[test]
fn header_length_field_decodes_back_to_the_payload_length() {
    let data = vec![0u8; 302];
    let chunk = Chunk::new(100, 0x77, &data);
    let header = chunk.header();
    assert_eq!(header[0], 0x77);
    assert_eq!(Chunk::meta(&header[1..]), Ok(302));
}

#[test]
fn meta_reads_a_little_endian_length() {
    assert_eq!(Chunk::meta(&[0xE8, 0x03, 0, 0, 0, 0, 0, 0]), Ok(1000));
    assert_eq!(Chunk::meta(&[0, 0, 0, 0, 0, 0, 0, 0]), Ok(0));
    assert_eq!(
        Chunk::meta(&[0xFF, 0xFF, 0xFF, 0xFF, 0xFF, 0xFF, 0xFF, 0xFF]),
        Ok(u64::MAX)
    );
    // bytes past the length field are ignored
    assert_eq!(Chunk::meta(&[1, 0, 0, 0, 0, 0, 0, 0, 0xAB, 0xCD]), Ok(1));
}

#[test]
fn meta_rejects_a_buffer_shorter_than_the_length_field() {
    assert_eq!(
        Chunk::meta(&[0xE8, 0x03, 0, 0, 0, 0, 0]),
        Err(ChunkError::InvalidMetaSize)
    );
    assert_eq!(Chunk::meta(&[]), Err(ChunkError::InvalidMetaSize));
    // exactly the field's width is enough
    assert_eq!(Chunk::meta(&[5, 0, 0, 0, 0, 0, 0, 0]), Ok(5));
}
