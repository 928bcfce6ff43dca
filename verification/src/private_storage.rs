//! The protocol by which a runtime reads and writes the protected records that
//! the owner keeps for it.
use vstd::prelude::*;

verus! {

/// How many bytes a frame holds at most, beside its size.
pub const MAX_FRAME: usize = 8_388_608;

/// The record cannot be had, whatever the reason.
#[derive(Clone, Copy, Debug, PartialEq, Eq, Structural)]
pub struct StorageUnavailable;

/// The four bytes of a size, the lowest first.
pub open spec fn size_bytes(size: nat) -> Seq<u8> {
    seq![
        (size % 256) as u8,
        (size / 256 % 256) as u8,
        (size / 65_536 % 256) as u8,
        (size / 16_777_216 % 256) as u8,
    ]
}

pub open spec fn size_of(header: Seq<u8>) -> nat {
    (header[0] + header[1] * 256 + header[2] * 65_536 + header[3] * 16_777_216) as nat
}

/// Whether a frame may have such a size.
pub open spec fn is_frame_size(size: nat) -> bool {
    0 < size <= MAX_FRAME
}

/// A frame: the size of a body, then the body.
pub open spec fn frame_of(body: Seq<u8>) -> Seq<u8> {
    size_bytes(body.len()) + body
}

/// The first bytes of a frame, where the body may be sent.
pub fn frame_header(body: &[u8]) -> (header: Result<[u8; 4], StorageUnavailable>)
    ensures
        header is Ok == is_frame_size(body@.len()),
        header matches Ok(bytes) ==> bytes@ + body@ == frame_of(body@),
{
    if body.len() == 0 || body.len() > MAX_FRAME {
        return Err(StorageUnavailable);
    }
    let size: u32 = body.len() as u32;
    let header: [u8; 4] = [
        (size % 256) as u8,
        (size / 256 % 256) as u8,
        (size / 65_536 % 256) as u8,
        (size / 16_777_216 % 256) as u8,
    ];
    assert(header@ =~= size_bytes(body@.len()));
    Ok(header)
}

/// How many bytes follow the first four of a frame. A size that no frame can
/// have is refused before anything is read.
pub fn frame_size(header: &[u8; 4]) -> (size: Result<usize, StorageUnavailable>)
    ensures
        size is Ok == is_frame_size(size_of(header@)),
        size matches Ok(size) ==> size == size_of(header@),
{
    let size: u64 = header[0] as u64 + header[1] as u64 * 256 + header[2] as u64 * 65_536
        + header[3] as u64 * 16_777_216;
    if size == 0 || size > MAX_FRAME as u64 {
        return Err(StorageUnavailable);
    }
    Ok(size as usize)
}

/// What a runtime asks of one of its records.
#[derive(Debug)]
pub enum RecordRequest {
    Load { index: u8 },
    Save { index: u8, bytes: Vec<u8> },
    Delete { index: u8 },
}

pub enum RequestView {
    Load { index: u8 },
    Save { index: u8, bytes: Seq<u8> },
    Delete { index: u8 },
}

impl View for RecordRequest {
    type V = RequestView;

    open spec fn view(&self) -> RequestView {
        match self {
            RecordRequest::Load { index } => RequestView::Load { index: *index },
            RecordRequest::Save { index, bytes } => RequestView::Save {
                index: *index,
                bytes: bytes@,
            },
            RecordRequest::Delete { index } => RequestView::Delete { index: *index },
        }
    }
}

/// A request in bytes.
pub open spec fn request_bytes(request: RequestView) -> Seq<u8> {
    match request {
        RequestView::Load { index } => seq![1u8, index],
        RequestView::Save { index, bytes } => seq![2u8, index] + bytes,
        RequestView::Delete { index } => seq![3u8, index],
    }
}

/// The request that bytes stand for, where they stand for one.
pub open spec fn request_of(body: Seq<u8>) -> Option<RequestView> {
    if body.len() < 2 {
        None
    } else if body[0] == 1 && body.len() == 2 {
        Some(RequestView::Load { index: body[1] })
    } else if body[0] == 2 {
        Some(RequestView::Save { index: body[1], bytes: body.skip(2) })
    } else if body[0] == 3 && body.len() == 2 {
        Some(RequestView::Delete { index: body[1] })
    } else {
        None
    }
}

pub fn load_request(index: u8) -> (body: Vec<u8>)
    ensures
        body@ == request_bytes(RequestView::Load { index }),
{
    let mut body: Vec<u8> = Vec::new();
    body.push(1);
    body.push(index);
    assert(body@ =~= seq![1u8, index]);
    body
}

pub fn delete_request(index: u8) -> (body: Vec<u8>)
    ensures
        body@ == request_bytes(RequestView::Delete { index }),
{
    let mut body: Vec<u8> = Vec::new();
    body.push(3);
    body.push(index);
    assert(body@ =~= seq![3u8, index]);
    body
}

fn extend(body: &mut Vec<u8>, bytes: &[u8])
    ensures
        final(body)@ == old(body)@ + bytes@,
{
    let ghost before = body@;
    let mut index: usize = 0;
    while index < bytes.len()
        invariant
            index <= bytes@.len(),
            body@ == before + bytes@.take(index as int),
        decreases bytes@.len() - index,
    {
        body.push(bytes[index]);
        index += 1;
        assert(body@ =~= before + bytes@.take(index as int));
    }
    assert(bytes@.take(index as int) =~= bytes@);
}

/// A request to write a record, unless it is too large for one frame.
pub fn save_request(index: u8, bytes: &[u8]) -> (body: Result<Vec<u8>, StorageUnavailable>)
    ensures
        body is Ok == (bytes@.len() + 2 <= MAX_FRAME),
        body matches Ok(body) ==> body@ == request_bytes(
            RequestView::Save { index, bytes: bytes@ },
        ),
{
    if bytes.len() > MAX_FRAME - 2 {
        return Err(StorageUnavailable);
    }
    let mut body: Vec<u8> = Vec::new();
    body.push(2);
    body.push(index);
    extend(&mut body, bytes);
    assert(body@ =~= seq![2u8, index] + bytes@);
    Ok(body)
}

/// The request that the owner was sent, if it concerns one of the `records`
/// records that the runtime was admitted to.
pub fn admitted_request(body: &[u8], records: usize) -> (request: Option<RecordRequest>)
    ensures
        match request {
            Some(request) => request_of(body@) == Some(request@) && body@[1] < records,
            None => request_of(body@) is None || body@[1] >= records,
        },
{
    if body.len() < 2 {
        return None;
    }
    let index: u8 = body[1];
    if index as usize >= records {
        return None;
    }
    if body[0] == 1 && body.len() == 2 {
        return Some(RecordRequest::Load { index });
    }
    if body[0] == 3 && body.len() == 2 {
        return Some(RecordRequest::Delete { index });
    }
    if body[0] != 2 {
        return None;
    }
    let mut bytes: Vec<u8> = Vec::new();
    let mut place: usize = 2;
    while place < body.len()
        invariant
            2 <= place <= body@.len(),
            bytes@ == body@.subrange(2, place as int),
        decreases body@.len() - place,
    {
        bytes.push(body[place]);
        place += 1;
        assert(bytes@ =~= body@.subrange(2, place as int));
    }
    assert(bytes@ =~= body@.skip(2));
    Some(RecordRequest::Save { index, bytes })
}

/// The answer to a request that failed.
pub open spec fn failure_reply() -> Seq<u8> {
    seq![255u8]
}

/// The answer to a request that was carried out.
pub open spec fn done_reply() -> Seq<u8> {
    seq![0u8]
}

/// The answer to a request to read: a record that is not there, or its bytes.
pub open spec fn loaded_reply(record: Option<Seq<u8>>) -> Seq<u8> {
    match record {
        None => seq![0u8],
        Some(bytes) => if bytes.len() < MAX_FRAME {
            seq![1u8] + bytes
        } else {
            failure_reply()
        },
    }
}

fn one_byte(value: u8) -> (reply: Vec<u8>)
    ensures
        reply@ == seq![value],
{
    let mut reply: Vec<u8> = Vec::new();
    reply.push(value);
    assert(reply@ =~= seq![value]);
    reply
}

/// What the store of a record said to a request.
pub enum RecordOutcome {
    Loaded(Option<Vec<u8>>),
    Done,
    Failed,
}

/// The answer that the runtime is sent.
pub fn record_reply(outcome: &RecordOutcome) -> (reply: Vec<u8>)
    ensures
        reply@ == (match *outcome {
            RecordOutcome::Loaded(Some(bytes)) => loaded_reply(Some(bytes@)),
            RecordOutcome::Loaded(None) => loaded_reply(None),
            RecordOutcome::Done => done_reply(),
            RecordOutcome::Failed => failure_reply(),
        }),
        is_frame_size(reply@.len()),
{
    match outcome {
        RecordOutcome::Loaded(Some(bytes)) => {
            if bytes.len() < MAX_FRAME {
                let mut reply = one_byte(1);
                extend(&mut reply, bytes.as_slice());
                reply
            } else {
                one_byte(255)
            }
        },
        RecordOutcome::Loaded(None) | RecordOutcome::Done => one_byte(0),
        RecordOutcome::Failed => one_byte(255),
    }
}

/// The runtime's end of the channel. Once the channel itself has failed it is
/// not used again.
#[derive(Clone, Copy, Debug, PartialEq, Eq, Structural)]
pub struct StorageChannel {
    pub open: bool,
}

impl StorageChannel {
    pub fn new() -> (channel: Self)
        ensures
            channel.open,
    {
        StorageChannel { open: true }
    }

    /// A request was sent, and `reply` has come back, or nothing has. A
    /// failure of the record leaves the channel open, so that the request can
    /// be repeated.
    pub fn exchange(&mut self, reply: Option<Vec<u8>>) -> (result: Result<
        Vec<u8>,
        StorageUnavailable,
    >)
        ensures
            match reply {
                Some(bytes) => {
                    &&& *final(self) == *old(self)
                    &&& result == (if !old(self).open || bytes@ == failure_reply() {
                        Err::<Vec<u8>, StorageUnavailable>(StorageUnavailable)
                    } else {
                        Ok(bytes)
                    })
                },
                None => {
                    &&& !final(self).open
                    &&& result == Err::<Vec<u8>, StorageUnavailable>(StorageUnavailable)
                },
            },
    {
        match reply {
            Some(bytes) => {
                let failed = bytes.len() == 1 && bytes[0] == 255;
                proof {
                    if failed {
                        assert(bytes@ =~= failure_reply());
                    }
                }
                if !self.open || failed {
                    return Err(StorageUnavailable);
                }
                Ok(bytes)
            },
            None => {
                self.open = false;
                Err(StorageUnavailable)
            },
        }
    }
}

/// The record in an answer to a request to read. An answer of any other form
/// is a failure, never an empty record.
pub fn loaded_record(reply: &[u8]) -> (record: Result<Option<Vec<u8>>, StorageUnavailable>)
    ensures
        if reply@ == seq![0u8] {
            record == Ok::<Option<Vec<u8>>, StorageUnavailable>(None)
        } else if reply@.len() > 0 && reply@[0] == 1 {
            record matches Ok(Some(bytes)) && bytes@ == reply@.skip(1)
        } else {
            record == Err::<Option<Vec<u8>>, StorageUnavailable>(StorageUnavailable)
        },
{
    if reply.len() == 0 {
        return Err(StorageUnavailable);
    }
    if reply[0] == 0 && reply.len() == 1 {
        assert(reply@ =~= seq![0u8]);
        return Ok(None);
    }
    if reply[0] != 1 {
        return Err(StorageUnavailable);
    }
    let mut bytes: Vec<u8> = Vec::new();
    let mut place: usize = 1;
    while place < reply.len()
        invariant
            1 <= place <= reply@.len(),
            bytes@ == reply@.subrange(1, place as int),
        decreases reply@.len() - place,
    {
        bytes.push(reply[place]);
        place += 1;
        assert(bytes@ =~= reply@.subrange(1, place as int));
    }
    assert(bytes@ =~= reply@.skip(1));
    Ok(Some(bytes))
}

/// Whether an answer says that a request was carried out.
pub fn request_done(reply: &[u8]) -> (result: Result<(), StorageUnavailable>)
    ensures
        result == (if reply@ == done_reply() {
            Ok::<(), StorageUnavailable>(())
        } else {
            Err(StorageUnavailable)
        }),
{
    if reply.len() == 1 && reply[0] == 0 {
        assert(reply@ =~= done_reply());
        Ok(())
    } else {
        Err(StorageUnavailable)
    }
}

/// The size that a frame begins with is read back as it was written.
pub proof fn law_frame_size_is_read_back(body: Seq<u8>)
    requires
        is_frame_size(body.len()),
    ensures
        size_of(frame_of(body).take(4)) == body.len(),
        frame_of(body).skip(4) == body,
{
    let size = body.len();
    let header = frame_of(body).take(4);
    assert(header =~= size_bytes(size));
    assert(size == size % 256 + (size / 256 % 256) * 256 + (size / 65_536 % 256) * 65_536 + (size
        / 16_777_216 % 256) * 16_777_216) by (nonlinear_arith)
        requires
            0 <= size <= 8_388_608,
    ;
    assert(frame_of(body).skip(4) =~= body);
}

/// A request is taken in by the owner as the runtime has sent it.
pub proof fn law_request_is_read_back(request: RequestView)
    ensures
        request_of(request_bytes(request)) == Some(request),
{
    match request {
        RequestView::Save { index, bytes } => {
            assert(request_bytes(request).skip(2) =~= bytes);
        },
        _ => {},
    }
}

/// What was written to a record is what a later read of it brings the runtime,
/// bytes of any kind and none at all included.
pub proof fn law_written_record_is_read_back(index: u8, bytes: Seq<u8>)
    requires
        bytes.len() + 2 <= MAX_FRAME,
    ensures
        request_of(request_bytes(RequestView::Save { index, bytes })) == Some(
            RequestView::Save { index, bytes },
        ),
        ({
            let reply = loaded_reply(Some(bytes));
            &&& reply != failure_reply()
            &&& reply != seq![0u8]
            &&& reply[0] == 1
            &&& reply.skip(1) == bytes
        }),
{
    law_request_is_read_back(RequestView::Save { index, bytes });
    let reply = loaded_reply(Some(bytes));
    assert(reply[0] == 1);
    assert(failure_reply()[0] == 255);
    assert(seq![0u8][0] == 0);
    assert(reply.skip(1) =~= bytes);
}

} // verus!
