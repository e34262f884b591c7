use bytes::Bytes;
use object_writer::error::Error;
use object_writer::error::ErrorKind;
use object_writer::object::writer::BlockingObjectWriter;
use object_writer::object::writer::BlockingWrite;

/// A block writer that keeps what it was given and fails when told to.
struct Recorder {
    blocks: Vec<Vec<u8>>,
    closes: usize,
    fail_next: Option<Error>,
}

impl BlockingWrite for Recorder {
    fn append(&mut self, bs: Bytes) -> Result<(), Error> {
        match self.fail_next.take() {
            Some(e) => Err(e),
            None => {
                self.blocks.push(bs.to_vec());
                Ok(())
            }
        }
    }

    fn close(&mut self) -> Result<(), Error> {
        self.closes += 1;
        match self.fail_next.take() {
            Some(e) => Err(e),
            None => Ok(()),
        }
    }
}

fn recorder() -> Recorder {
    Recorder { blocks: Vec::new(), closes: 0, fail_next: None }
}

fn denied() -> Error {
    Error::new(ErrorKind::ObjectPermissionDenied, "denied")
}

#[test]
fn blocking_append_forwards_the_block() {
    let mut session = BlockingObjectWriter::create(recorder());
    assert_eq!(session.append(Bytes::from(vec![1u8, 2, 3])), Ok(()));
    assert_eq!(session.append(Bytes::from(vec![4u8])), Ok(()));
    assert_eq!(session.inner.blocks, vec![vec![1u8, 2, 3], vec![4u8]]);
}

#[test]
fn blocking_append_hands_the_error_on() {
    let mut session = BlockingObjectWriter::create(recorder());
    session.inner.fail_next = Some(denied());
    assert_eq!(session.append(Bytes::from(vec![1u8])), Err(denied()));
    assert!(session.inner.blocks.is_empty());
    assert_eq!(session.append(Bytes::from(vec![2u8])), Ok(()));
    assert_eq!(session.inner.blocks, vec![vec![2u8]]);
}

#[test]
fn blocking_write_reports_the_size() {
    let mut session = BlockingObjectWriter::create(recorder());
    let buf = vec![6u8; 500];
    assert_eq!(session.write(&buf), Ok(500));
    assert_eq!(session.write(&buf[..300]), Ok(300));
    assert_eq!(session.write(&[]), Ok(0));
    assert_eq!(session.inner.blocks, vec![buf.clone(), buf[..300].to_vec(), Vec::new()]);
}

#[test]
fn blocking_write_hands_the_error_on() {
    let mut session = BlockingObjectWriter::create(recorder());
    session.inner.fail_next = Some(denied());
    assert_eq!(session.write(&[1u8, 2]), Err(denied()));
    assert!(session.inner.blocks.is_empty());
}

#[test]
fn blocking_flush_does_nothing() {
    let mut session = BlockingObjectWriter::create(recorder());
    assert_eq!(session.write(&[1u8]), Ok(1));
    assert_eq!(session.flush(), Ok(()));
    assert_eq!(session.flush(), Ok(()));
    assert_eq!(session.inner.blocks, vec![vec![1u8]]);
    assert_eq!(session.inner.closes, 0);
    assert_eq!(session.write(&[2u8, 3]), Ok(2));
    assert_eq!(session.inner.blocks, vec![vec![1u8], vec![2u8, 3]]);
}

#[test]
fn blocking_close_closes_once() {
    let mut session = BlockingObjectWriter::create(recorder());
    assert_eq!(session.close(), Ok(()));
    assert_eq!(session.inner.closes, 1);
    session.inner.fail_next = Some(denied());
    assert_eq!(session.close(), Err(denied()));
    assert_eq!(session.inner.closes, 2);
}
