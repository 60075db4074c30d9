use std::sync::Arc;

use blaze_native::exchange::{Action, BatchExchange, Pulled};
use std::io::Cursor;

use blaze_native::segment::{
    BlockRead, BlockStep, ReaderPoll, SegmentBuffer, SegmentError, ShuffleReaderStream,
};
use blaze_native::shuffle_reader::ShuffleReaderExec;
use datafusion::arrow::array::{ArrayRef, Int32Array, StringArray};
use datafusion::arrow::datatypes::{DataType, Field, Schema, SchemaRef};
use datafusion::arrow::ipc::reader::FileReader;
use datafusion::arrow::ipc::writer::FileWriter;
use datafusion::arrow::record_batch::RecordBatch;

fn schema() -> SchemaRef {
    Arc::new(Schema::new(vec![
        Field::new("id", DataType::Int32, false),
        Field::new("name", DataType::Utf8, true),
    ]))
}

fn batch(ids: Vec<i32>) -> RecordBatch {
    let names: Vec<String> = ids.iter().map(|i| format!("n{}", i)).collect();
    let cols: Vec<ArrayRef> = vec![
        Arc::new(Int32Array::from(ids)),
        Arc::new(StringArray::from(names)),
    ];
    RecordBatch::try_new(schema(), cols).unwrap()
}

fn segment(batches: &[RecordBatch]) -> Vec<u8> {
    let mut w = FileWriter::try_new(Vec::new(), &schema()).unwrap();
    for b in batches {
        w.write(b).unwrap();
    }
    w.finish().unwrap();
    let file = w.into_inner().unwrap();
    zstd::stream::encode_all(&file[..], 1).unwrap()
}

fn open_next(
    reader: &mut ShuffleReaderStream,
    compressed: &[u8],
) -> Result<FileReader<Cursor<Vec<u8>>>, SegmentError> {
    let file = reader.decompress(compressed)?;
    match FileReader::try_new(Cursor::new(file), None) {
        Ok(f) => {
            reader.on_opened(true)?;
            Ok(f)
        }
        Err(_) => Err(reader.on_opened(false).unwrap_err()),
    }
}

fn read_all(
    reader: &mut ShuffleReaderStream,
    segments: &[Vec<u8>],
) -> Result<Vec<RecordBatch>, SegmentError> {
    let mut next = 0;
    let mut out = Vec::new();
    let mut file: Option<FileReader<Cursor<Vec<u8>>>> = None;
    loop {
        match reader.poll() {
            ReaderPoll::ReadBlock => {
                let (read, batch) = match file.as_mut().unwrap().next() {
                    Some(Ok(b)) => (BlockRead::Batch, Some(b)),
                    Some(Err(_)) => (BlockRead::Failed, None),
                    None => (BlockRead::Nothing, None),
                };
                match reader.on_block(read) {
                    BlockStep::Yield => out.push(batch.unwrap()),
                    BlockStep::NeedSegment => file = None,
                    BlockStep::Failed(e) => return Err(e),
                }
            }
            ReaderPoll::NeedSegment => {
                if next < segments.len() {
                    file = Some(open_next(reader, &segments[next])?);
                    next += 1;
                } else {
                    reader.end_of_segments();
                }
            }
            ReaderPoll::End => return Ok(out),
        }
    }
}

#[test]
fn segments_round_trip_in_order() {
    let batches = vec![
        batch(vec![1, 2, 3]),
        batch(vec![4]),
        batch(vec![5, 6]),
        batch(vec![7, 8, 9, 10]),
        batch(vec![11]),
    ];
    let segments = vec![
        segment(&batches[0..2]),
        segment(&batches[2..3]),
        segment(&batches[3..5]),
    ];
    let mut reader = ShuffleReaderStream::new(schema());
    let got = read_all(&mut reader, &segments).unwrap();
    assert_eq!(got, batches);
    assert_eq!(reader.schema(), schema());
}

#[test]
fn empty_segment_sequence_ends_at_first_poll() {
    let mut reader = ShuffleReaderStream::new(schema());
    assert!(matches!(reader.poll(), ReaderPoll::NeedSegment));
    reader.end_of_segments();
    assert!(matches!(reader.poll(), ReaderPoll::End));
    let mut again = ShuffleReaderStream::new(schema());
    assert!(read_all(&mut again, &[]).unwrap().is_empty());
}

#[test]
fn segment_without_batches_is_passed_over() {
    let segments = vec![segment(&[]), segment(&[batch(vec![42])])];
    let mut reader = ShuffleReaderStream::new(schema());
    let got = read_all(&mut reader, &segments).unwrap();
    assert_eq!(got, vec![batch(vec![42])]);
}

#[test]
fn short_segment_is_a_read_error() {
    let mut buf = SegmentBuffer::new(10);
    assert_eq!(buf.remaining(), 10);
    assert_eq!(buf.accept(Some(&[1, 2, 3])), Ok(false));
    assert_eq!(buf.remaining(), 7);
    assert_eq!(buf.accept(None), Err(SegmentError::Read));
    assert!(!buf.is_complete());
    assert_eq!(buf.into_bytes(), vec![1, 2, 3]);
}

#[test]
fn overrunning_read_is_a_read_error() {
    let mut buf = SegmentBuffer::new(4);
    assert_eq!(buf.accept(Some(&[1, 2, 3])), Ok(false));
    assert_eq!(buf.accept(Some(&[4, 5])), Err(SegmentError::Read));
    assert_eq!(buf.accept(Some(&[4])), Ok(true));
    assert!(buf.is_complete());
    assert_eq!(buf.into_bytes(), vec![1, 2, 3, 4]);
}

#[test]
fn assembled_segment_reads_back() {
    let compressed = segment(&[batch(vec![1, 2])]);
    let mut buf = SegmentBuffer::new(compressed.len());
    let (a, b) = compressed.split_at(compressed.len() / 2);
    assert_eq!(buf.accept(Some(a)), Ok(false));
    assert_eq!(buf.accept(Some(b)), Ok(true));
    let bytes = buf.into_bytes();
    let mut reader = ShuffleReaderStream::new(schema());
    let got = read_all(&mut reader, &[bytes]).unwrap();
    assert_eq!(got, vec![batch(vec![1, 2])]);
}

#[test]
fn undecodable_segment_ends_the_stream() {
    let mut reader = ShuffleReaderStream::new(schema());
    assert_eq!(reader.poll(), ReaderPoll::NeedSegment);
    assert_eq!(reader.decompress(&[1, 2, 3, 4, 5]), Err(SegmentError::Decode));
    assert_eq!(reader.poll(), ReaderPoll::End);
}

#[test]
fn uncompressed_ipc_file_is_not_a_segment() {
    let mut w = FileWriter::try_new(Vec::new(), &schema()).unwrap();
    w.write(&batch(vec![1])).unwrap();
    w.finish().unwrap();
    let file = w.into_inner().unwrap();
    let mut reader = ShuffleReaderStream::new(schema());
    assert_eq!(reader.decompress(&file), Err(SegmentError::Decode));
}

#[test]
fn segment_that_is_not_an_ipc_file_is_a_decode_error() {
    let compressed = zstd::stream::encode_all(&b"not an arrow file"[..], 1).unwrap();
    let mut reader = ShuffleReaderStream::new(schema());
    assert_eq!(
        reader.decompress(&compressed).unwrap(),
        b"not an arrow file".to_vec()
    );
    let mut again = ShuffleReaderStream::new(schema());
    assert_eq!(
        read_all(&mut again, &[compressed]).unwrap_err(),
        SegmentError::Decode
    );
    assert_eq!(again.poll(), ReaderPoll::End);
}

#[test]
fn failed_block_ends_the_stream_once() {
    let mut reader = ShuffleReaderStream::new(schema());
    assert_eq!(reader.on_opened(true), Ok(()));
    assert_eq!(reader.poll(), ReaderPoll::ReadBlock);
    assert_eq!(reader.on_block(BlockRead::Batch), BlockStep::Yield);
    assert_eq!(reader.on_block(BlockRead::Failed), BlockStep::Failed(SegmentError::Decode));
    for _ in 0..3 {
        assert_eq!(reader.poll(), ReaderPoll::End);
    }
}

#[test]
fn segment_running_dry_asks_for_the_next() {
    let mut reader = ShuffleReaderStream::new(schema());
    assert_eq!(reader.on_opened(true), Ok(()));
    assert_eq!(reader.on_block(BlockRead::Nothing), BlockStep::NeedSegment);
    assert_eq!(reader.poll(), ReaderPoll::NeedSegment);
    assert_eq!(reader.on_opened(false), Err(SegmentError::Decode));
    assert_eq!(reader.poll(), ReaderPoll::End);
}

#[test]
fn plan_node_keeps_its_settings() {
    let exec = ShuffleReaderExec::new(4, "shuffle-7".to_string(), schema());
    assert_eq!(exec.num_partitions, 4);
    assert_eq!(exec.output_partition_count(), 4);
    assert_eq!(exec.native_shuffle_id, "shuffle-7");
    assert_eq!(exec.schema, schema());
    let mut reader = exec.open_partition();
    assert!(matches!(reader.poll(), ReaderPoll::NeedSegment));
}

#[test]
fn segments_through_exchange_skip_empty_batches() {
    let batches = vec![batch(vec![1, 2]), batch(vec![]), batch(vec![3])];
    let segments = vec![segment(&batches[0..2]), segment(&batches[2..3])];
    let mut reader = ShuffleReaderStream::new(schema());
    let read = read_all(&mut reader, &segments).unwrap();
    assert_eq!(read.len(), 3);
    let mut ex = BatchExchange::new();
    let mut exported = Vec::new();
    for b in &read {
        if let Action::Export { position } = ex.on_pulled(Pulled::Rows(b.num_rows())) {
            exported.push(read[position].clone());
        }
    }
    assert_eq!(ex.on_pulled(Pulled::Exhausted), Action::EndOfStream);
    assert_eq!(exported, vec![batch(vec![1, 2]), batch(vec![3])]);
    assert!(exported.iter().all(|b| b.num_rows() > 0));
}

#[test]
fn short_segment_gives_one_error_and_no_more_batches() {
    let mut reader = ShuffleReaderStream::new(schema());
    let mut ex = BatchExchange::new();
    assert!(matches!(reader.poll(), ReaderPoll::NeedSegment));
    // the segment declares 100 bytes, the source holds 40
    let mut buf = SegmentBuffer::new(100);
    assert_eq!(buf.accept(Some(&[0u8; 40])), Ok(false));
    let e = buf.accept(None).unwrap_err();
    assert_eq!(reader.record_failure(e), SegmentError::Read);
    assert_eq!(ex.on_pulled(Pulled::Failed), Action::ReportError);
    assert!(ex.is_terminated());
    assert!(matches!(reader.poll(), ReaderPoll::End));
    assert!(matches!(reader.poll(), ReaderPoll::End));
}

#[test]
fn read_that_brings_nothing_is_a_read_error() {
    let mut buf = SegmentBuffer::new(5);
    assert_eq!(buf.accept(Some(&[9, 9])), Ok(false));
    assert_eq!(buf.accept(Some(&[])), Err(SegmentError::Read));
    assert_eq!(buf.remaining(), 3);
    let mut empty = SegmentBuffer::new(0);
    assert!(empty.is_complete());
    assert_eq!(empty.accept(Some(&[])), Ok(true));
}

#[test]
fn schema_stays_across_polls() {
    let segments = vec![segment(&[batch(vec![1]), batch(vec![2, 3])])];
    let mut reader = ShuffleReaderStream::new(schema());
    let got = read_all(&mut reader, &segments).unwrap();
    assert_eq!(got.len(), 2);
    assert_eq!(reader.schema(), schema());
    assert!(matches!(reader.poll(), ReaderPoll::End));
    assert_eq!(reader.schema(), schema());
}
