use nelomai_app::private_storage::{
    admitted_request, delete_request, frame_header, frame_size, load_request, loaded_record,
    record_reply, request_done, save_request, RecordOutcome, RecordRequest, StorageChannel,
    StorageUnavailable, MAX_FRAME,
};

/// The owner of the records, without the sockets in between.
struct Owner {
    records: Vec<Option<Vec<u8>>>,
    fails_once: bool,
}

impl Owner {
    fn serve(&mut self, body: &[u8]) -> Option<Vec<u8>> {
        let header = frame_header(body).ok()?;
        assert_eq!(frame_size(&header), Ok(body.len()));
        let outcome = match admitted_request(body, self.records.len())? {
            RecordRequest::Load { index } => {
                if self.fails_once {
                    self.fails_once = false;
                    RecordOutcome::Failed
                } else {
                    RecordOutcome::Loaded(self.records[index as usize].clone())
                }
            }
            RecordRequest::Save { index, bytes } => {
                self.records[index as usize] = Some(bytes);
                RecordOutcome::Done
            }
            RecordRequest::Delete { index } => {
                self.records[index as usize] = None;
                RecordOutcome::Done
            }
        };
        Some(record_reply(&outcome))
    }
}

/// The runtime's side of the channel.
struct Remote {
    channel: StorageChannel,
    index: u8,
}

impl Remote {
    fn new(index: u8) -> Self {
        Remote {
            channel: StorageChannel::new(),
            index,
        }
    }

    fn load(&mut self, owner: &mut Owner) -> Result<Option<Vec<u8>>, StorageUnavailable> {
        let reply = owner.serve(&load_request(self.index));
        loaded_record(&self.channel.exchange(reply)?)
    }

    fn save(&mut self, owner: &mut Owner, bytes: &[u8]) -> Result<(), StorageUnavailable> {
        let body = save_request(self.index, bytes)?;
        let reply = owner.serve(&body);
        request_done(&self.channel.exchange(reply)?)
    }

    fn delete(&mut self, owner: &mut Owner) -> Result<(), StorageUnavailable> {
        let reply = owner.serve(&delete_request(self.index));
        request_done(&self.channel.exchange(reply)?)
    }
}

fn owner() -> Owner {
    Owner {
        records: vec![None],
        fails_once: false,
    }
}

#[test]
fn runtime_reads_and_writes_only_common_owned_admitted_records() {
    let mut owner = owner();
    let mut remote = Remote::new(0);
    assert_eq!(remote.load(&mut owner), Ok(None));
    let bytes = vec![37; 200_000]; // larger than auth/native control frames
    remote.save(&mut owner, &bytes).unwrap();
    assert_eq!(owner.records[0].as_deref(), Some(bytes.as_slice()));
    assert_eq!(remote.load(&mut owner), Ok(Some(bytes)));
    remote.delete(&mut owner).unwrap();
    assert_eq!(remote.load(&mut owner), Ok(None));
    assert!(Remote::new(1).load(&mut owner).is_err());
}

#[test]
fn closed_storage_is_an_error_not_an_empty_record() {
    let mut remote = Remote::new(0);
    assert!(remote.channel.exchange(None).is_err());
    let mut owner = owner();
    assert!(remote.load(&mut owner).is_err());
    assert!(remote.save(&mut owner, b"state").is_err());
}

#[test]
fn temporary_backend_failure_can_be_retried_without_restart() {
    let mut owner = Owner {
        records: vec![None],
        fails_once: true,
    };
    let mut remote = Remote::new(0);
    assert!(remote.load(&mut owner).is_err());
    remote.save(&mut owner, b"retained state").unwrap();
    assert_eq!(
        remote.load(&mut owner).unwrap().as_deref(),
        Some(&b"retained state"[..])
    );
    remote.delete(&mut owner).unwrap();
    assert_eq!(remote.load(&mut owner), Ok(None));
}

#[test]
fn oversized_write_is_rejected_without_losing_existing_record() {
    let mut owner = owner();
    owner.records[0] = Some(b"existing".to_vec());
    let mut remote = Remote::new(0);
    assert!(remote.save(&mut owner, &vec![0; MAX_FRAME]).is_err());
    assert_eq!(
        remote.load(&mut owner).unwrap().as_deref(),
        Some(&b"existing"[..])
    );
}

#[test]
fn malformed_frame_is_rejected_before_allocation() {
    for size in [0, MAX_FRAME as u32 + 1, u32::MAX] {
        assert!(frame_size(&size.to_le_bytes()).is_err());
    }
    assert_eq!(frame_size(&(MAX_FRAME as u32).to_le_bytes()), Ok(MAX_FRAME));
    assert!(frame_header(&[]).is_err());
}

#[test]
fn a_request_is_read_back_as_it_was_written() {
    assert!(matches!(
        admitted_request(&load_request(3), 4),
        Some(RecordRequest::Load { index: 3 })
    ));
    assert!(matches!(
        admitted_request(&delete_request(3), 4),
        Some(RecordRequest::Delete { index: 3 })
    ));
    match admitted_request(&save_request(2, b"abc").unwrap(), 4) {
        Some(RecordRequest::Save { index, bytes }) => {
            assert_eq!((index, bytes), (2, b"abc".to_vec()))
        }
        _ => panic!("a request was lost"),
    }
    assert!(admitted_request(&[9, 0], 4).is_none());
    assert!(admitted_request(&[1], 4).is_none());
    assert!(loaded_record(&[2]).is_err());
    assert!(request_done(&[0, 0]).is_err());
}
