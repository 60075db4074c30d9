//! The partitioned segment reader.
//!
//! A partition arrives as a sequence of independently zstd-compressed
//! segments, each holding an Arrow IPC file of record batches. The reader
//! assembles one segment's bytes, decompresses them, reads the file's
//! batches in order, and moves on to the next segment when it runs dry.
//! Fetching the segments and reading the IPC file block by block are left
//! to the caller: the reader says what it needs next and decides what each
//! outcome means.
use datafusion::arrow::datatypes::{Schema, SchemaRef};
use vstd::prelude::*;

verus! {

/// Arrow's schema, carried through unread.
#[verifier::external_type_specification]
#[verifier::external_body]
pub struct ExSchema(Schema);

/// Relies on `Arc::clone`: the copy points to the same schema.
#[verifier::external_body]
pub(crate) fn share_schema(s: &SchemaRef) -> (r: SchemaRef)
    ensures
        r == *s,
{
    s.clone()
}

/// The error of a failed decompression, mapped to `SegmentError::Decode`.
#[verifier::external_type_specification]
#[verifier::external_body]
pub struct ExIoError(std::io::Error);

/// Why reading a partition failed.
#[derive(Clone, Copy, Debug, PartialEq, Eq, Structural)]
pub enum SegmentError {
    /// A segment could not be read to its declared length.
    Read,
    /// A segment could not be decompressed or parsed as batches.
    Decode,
}

/// The compressed bytes of one segment, gathered read by read.
pub struct SegmentBuffer {
    declared: usize,
    data: Vec<u8>,
}

impl SegmentBuffer {
    pub closed spec fn declared(&self) -> nat {
        self.declared as nat
    }

    pub closed spec fn data(&self) -> Seq<u8> {
        self.data@
    }

    pub closed spec fn wf(&self) -> bool {
        self.data@.len() <= self.declared
    }

    /// An empty buffer for a segment of `declared` bytes.
    pub fn new(declared: usize) -> (r: SegmentBuffer)
        ensures
            r.wf(),
            r.declared() == declared,
            r.data() == Seq::<u8>::empty(),
    {
        SegmentBuffer { declared, data: Vec::new() }
    }

    /// How many bytes are still to be read.
    pub fn remaining(&self) -> (r: usize)
        requires
            self.wf(),
        ensures
            r == self.declared() - self.data().len(),
    {
        self.declared - self.data.len()
    }

    pub fn is_complete(&self) -> (r: bool)
        requires
            self.wf(),
        ensures
            r == (self.data().len() == self.declared()),
    {
        self.data.len() == self.declared
    }

    /// Takes the outcome of one read: the bytes read, or `None` where the
    /// source ended or failed. Returns whether the segment is now complete.
    /// A segment that ends short of its declared length, a read that brings
    /// no byte while bytes are still owed, or a read that overruns it, is a
    /// read error and leaves the buffer as it was.
    pub fn accept(&mut self, chunk: Option<&[u8]>) -> (r: Result<bool, SegmentError>)
        requires
            old(self).wf(),
        ensures
            final(self).wf(),
            final(self).declared() == old(self).declared(),
            match chunk {
                None => r == Err::<bool, SegmentError>(SegmentError::Read) && final(self).data()
                    == old(self).data(),
                Some(c) => if c@.len() <= old(self).declared() - old(self).data().len() && (c@.len()
                    > 0 || old(self).data().len() == old(self).declared()) {
                    &&& final(self).data() == old(self).data() + c@
                    &&& r == Ok::<bool, SegmentError>(final(self).data().len() == final(self).declared())
                } else {
                    r == Err::<bool, SegmentError>(SegmentError::Read) && final(self).data()
                        == old(self).data()
                },
            },
    {
        match chunk {
            None => Err(SegmentError::Read),
            Some(c) => {
                if c.len() > self.declared - self.data.len() {
                    return Err(SegmentError::Read);
                }
                if c.len() == 0 && self.data.len() < self.declared {
                    return Err(SegmentError::Read);
                }
                let ghost before = self.data@;
                let mut i: usize = 0;
                while i < c.len()
                    invariant
                        i <= c@.len(),
                        self.declared == old(self).declared,
                        before == old(self).data@,
                        before.len() + c@.len() <= self.declared,
                        self.data@ == before + c@.subrange(0, i as int),
                    decreases c@.len() - i,
                {
                    self.data.push(c[i]);
                    i = i + 1;
                    assert(self.data@ =~= before + c@.subrange(0, i as int));
                }
                assert(c@.subrange(0, c@.len() as int) =~= c@);
                Ok(self.data.len() == self.declared)
            },
        }
    }

    /// The gathered bytes.
    pub fn into_bytes(self) -> (r: Vec<u8>)
        ensures
            r@ == self.data(),
    {
        self.data
    }
}

/// The decompressed form of a zstd-compressed byte sequence.
pub uninterp spec fn zstd_decoded(compressed: Seq<u8>) -> Seq<u8>;

/// Whether a byte sequence decompresses as zstd.
pub uninterp spec fn zstd_decodes(compressed: Seq<u8>) -> bool;

/// Relies on `zstd::stream::decode_all`: whether it succeeds, and the
/// whole input decompressed on success, depend on the input bytes alone.
#[verifier::external_body]
fn zstd_decode(compressed: &[u8]) -> (r: Result<Vec<u8>, std::io::Error>)
    ensures
        r is Ok <==> zstd_decodes(compressed@),
        r is Ok ==> r->Ok_0@ == zstd_decoded(compressed@),
{
    zstd::stream::decode_all(compressed)
}

/// Whether block `a` comes before block `b`, each given as (segment, block):
/// segments in the order they were opened, blocks in file order.
pub open spec fn comes_before(a: (nat, nat), b: (nat, nat)) -> bool {
    a.0 < b.0 || (a.0 == b.0 && a.1 < b.1)
}

/// Whether the blocks of `s` stand in reading order, each at most once.
pub open spec fn in_reading_order(s: Seq<(nat, nat)>) -> bool {
    forall|i: int, j: int| 0 <= i < j < s.len() ==> comes_before(s[i], s[j])
}

/// What the reader asks for next.
#[derive(Clone, Copy, Debug, PartialEq, Eq, Structural)]
pub enum ReaderPoll {
    /// Read the next block of the open segment's IPC file.
    ReadBlock,
    /// Hand the reader the next segment, or tell it that there is none.
    NeedSegment,
    /// The partition has been read to its end, or cannot be read further.
    End,
}

/// What reading the next block of the open segment's IPC file gave.
#[derive(Clone, Copy, Debug, PartialEq, Eq, Structural)]
pub enum BlockRead {
    /// A record batch.
    Batch,
    /// An error, or a fault inside the IPC reader.
    Failed,
    /// No batch: the file has no block left, or the block held none.
    Nothing,
}

/// What the reader does with a block read.
#[derive(Clone, Copy, Debug, PartialEq, Eq, Structural)]
pub enum BlockStep {
    /// Yield the batch that was read.
    Yield,
    /// The open segment is done: drop its file and ask for the next one.
    NeedSegment,
    /// Report the error once; the reader has ended.
    Failed(SegmentError),
}

/// The reader of one partition: it decides, poll by poll, whether to read a
/// block of the open segment, fetch the next segment, or end.
pub struct ShuffleReaderStream {
    schema: SchemaRef,
    segment_open: bool,
    finished: bool,
    opened: Ghost<nat>,
    position: Ghost<nat>,
    delivered: Ghost<Seq<(nat, nat)>>,
}

impl ShuffleReaderStream {
    /// Whether the reader has ended, at the end of the partition or on an
    /// error.
    pub closed spec fn finished(&self) -> bool {
        self.finished
    }

    /// Whether a segment is open.
    pub closed spec fn segment_open(&self) -> bool {
        self.segment_open
    }

    /// How many segments have been opened.
    pub closed spec fn opened(&self) -> nat {
        self.opened@
    }

    /// How many blocks of the open segment have been read.
    pub closed spec fn position(&self) -> nat {
        self.position@
    }

    /// The blocks whose batches have been yielded, as (segment, block), in
    /// the order they were yielded.
    pub closed spec fn delivered(&self) -> Seq<(nat, nat)> {
        self.delivered@
    }

    /// The schema of the partition's batches.
    pub closed spec fn schema_spec(&self) -> SchemaRef {
        self.schema
    }

    pub closed spec fn wf(&self) -> bool {
        &&& in_reading_order(self.delivered@)
        &&& forall|k: int| 0 <= k < self.delivered@.len() ==> self.delivered@[k].0 < self.opened@
        &&& self.finished ==> !self.segment_open
        &&& self.segment_open ==> {
            &&& self.opened@ > 0
            &&& forall|k: int|
                0 <= k < self.delivered@.len() && self.delivered@[k].0 == self.opened@ - 1
                    ==> self.delivered@[k].1 < self.position@
        }
    }

    /// A reader of a partition whose batches have the given schema; no
    /// segment is open yet.
    pub fn new(schema: SchemaRef) -> (r: ShuffleReaderStream)
        ensures
            r.wf(),
            !r.finished(),
            !r.segment_open(),
            r.schema_spec() == schema,
            r.opened() == 0,
            r.delivered() == Seq::<(nat, nat)>::empty(),
    {
        ShuffleReaderStream {
            schema,
            segment_open: false,
            finished: false,
            opened: Ghost(0),
            position: Ghost(0),
            delivered: Ghost(Seq::empty()),
        }
    }

    pub fn schema(&self) -> (r: SchemaRef)
        ensures
            r == self.schema_spec(),
    {
        share_schema(&self.schema)
    }

    /// What to do next: read a block while a segment is open, fetch a
    /// segment while none is, and nothing once the reader has ended.
    pub fn poll(&self) -> (r: ReaderPoll)
        ensures
            r == if self.finished() {
                ReaderPoll::End
            } else if self.segment_open() {
                ReaderPoll::ReadBlock
            } else {
                ReaderPoll::NeedSegment
            },
    {
        if self.finished {
            ReaderPoll::End
        } else if self.segment_open {
            ReaderPoll::ReadBlock
        } else {
            ReaderPoll::NeedSegment
        }
    }

    /// Takes what reading the next block of the open segment gave.
    pub fn on_block(&mut self, read: BlockRead) -> (r: BlockStep)
        requires
            old(self).wf(),
            old(self).segment_open(),
        ensures
            final(self).wf(),
            final(self).schema_spec() == old(self).schema_spec(),
            final(self).opened() == old(self).opened(),
            match read {
                BlockRead::Batch => {
                    &&& r == BlockStep::Yield
                    &&& final(self).segment_open() && !final(self).finished()
                    &&& final(self).position() == old(self).position() + 1
                    &&& final(self).delivered() == old(self).delivered().push(
                        ((old(self).opened() - 1) as nat, old(self).position()),
                    )
                },
                BlockRead::Failed => {
                    &&& r == BlockStep::Failed(SegmentError::Decode)
                    &&& !final(self).segment_open() && final(self).finished()
                    &&& final(self).delivered() == old(self).delivered()
                },
                BlockRead::Nothing => {
                    &&& r == BlockStep::NeedSegment
                    &&& !final(self).segment_open() && !final(self).finished()
                    &&& final(self).delivered() == old(self).delivered()
                },
            },
    {
        match read {
            BlockRead::Batch => {
                let ghost e = ((self.opened@ - 1) as nat, self.position@);
                let ghost before = self.delivered@;
                self.delivered = Ghost(self.delivered@.push(e));
                self.position = Ghost(self.position@ + 1);
                assert forall|i: int, j: int|
                    0 <= i < j < self.delivered@.len() implies comes_before(
                    self.delivered@[i],
                    self.delivered@[j],
                ) by {
                    if j == before.len() {
                        assert(self.delivered@[i] == before[i]);
                    }
                }
                BlockStep::Yield
            },
            BlockRead::Failed => {
                self.segment_open = false;
                self.finished = true;
                BlockStep::Failed(SegmentError::Decode)
            },
            BlockRead::Nothing => {
                self.segment_open = false;
                BlockStep::NeedSegment
            },
        }
    }

    /// Decompresses the next segment whole; the caller opens the result as
    /// an IPC file. A segment that does not decompress ends the reader.
    pub fn decompress(&mut self, compressed: &[u8]) -> (r: Result<Vec<u8>, SegmentError>)
        requires
            old(self).wf(),
            !old(self).finished(),
            !old(self).segment_open(),
        ensures
            final(self).wf(),
            final(self).schema_spec() == old(self).schema_spec(),
            final(self).opened() == old(self).opened(),
            final(self).delivered() == old(self).delivered(),
            !final(self).segment_open(),
            r is Ok <==> zstd_decodes(compressed@),
            r is Ok ==> r->Ok_0@ == zstd_decoded(compressed@) && !final(self).finished(),
            r is Err ==> r == Err::<Vec<u8>, SegmentError>(SegmentError::Decode)
                && final(self).finished(),
    {
        match zstd_decode(compressed) {
            Ok(file) => Ok(file),
            Err(_) => {
                self.finished = true;
                Err(SegmentError::Decode)
            },
        }
    }

    /// Takes whether the decompressed segment opened as an IPC file: on
    /// success its blocks are read next, from the first; otherwise the
    /// reader ends with a decode error.
    pub fn on_opened(&mut self, opened: bool) -> (r: Result<(), SegmentError>)
        requires
            old(self).wf(),
            !old(self).finished(),
            !old(self).segment_open(),
        ensures
            final(self).wf(),
            final(self).schema_spec() == old(self).schema_spec(),
            final(self).delivered() == old(self).delivered(),
            opened ==> r is Ok && final(self).segment_open() && !final(self).finished()
                && final(self).opened() == old(self).opened() + 1 && final(self).position() == 0,
            !opened ==> r == Err::<(), SegmentError>(SegmentError::Decode) && final(self).finished()
                && !final(self).segment_open() && final(self).opened() == old(self).opened(),
    {
        if opened {
            self.segment_open = true;
            self.opened = Ghost(self.opened@ + 1);
            self.position = Ghost(0);
            Ok(())
        } else {
            self.finished = true;
            Err(SegmentError::Decode)
        }
    }

    /// The reader yields the blocks of its segments in reading order: the
    /// segments in the order they were opened, the blocks of each in file
    /// order, and no block twice.
    pub proof fn lemma_reading_order(&self)
        requires
            self.wf(),
        ensures
            in_reading_order(self.delivered()),
            forall|k: int| 0 <= k < self.delivered().len() ==> self.delivered()[k].0 < self.opened(),
    {
    }

    /// Records that the next segment could not be read: the reader ends, and
    /// the error is handed back to be reported once.
    pub fn record_failure(&mut self, e: SegmentError) -> (r: SegmentError)
        requires
            old(self).wf(),
            !old(self).segment_open(),
        ensures
            final(self).wf(),
            final(self).schema_spec() == old(self).schema_spec(),
            final(self).delivered() == old(self).delivered(),
            final(self).opened() == old(self).opened(),
            r == e,
            final(self).finished(),
            !final(self).segment_open(),
    {
        self.finished = true;
        e
    }

    /// Records that the segment sequence has no segment left: the partition
    /// has been read to its end.
    pub fn end_of_segments(&mut self)
        requires
            old(self).wf(),
            !old(self).segment_open(),
        ensures
            final(self).wf(),
            final(self).schema_spec() == old(self).schema_spec(),
            final(self).delivered() == old(self).delivered(),
            final(self).opened() == old(self).opened(),
            final(self).finished(),
            !final(self).segment_open(),
    {
        self.finished = true;
    }
}

} // verus!
