use grpc_web_client::{HostRead, ReadableStreamBody, StreamError};

fn failure() -> StreamError {
    StreamError { message: "readablestream error".to_string() }
}

fn pull_all(reads: Vec<HostRead>) -> Vec<Option<Result<Vec<u8>, StreamError>>> {
    let mut body = ReadableStreamBody::new();
    reads.into_iter().map(|read| body.poll_data(read)).collect()
}

#[test]
fn chunks_then_close() {
    let pulled = pull_all(vec![
        HostRead::Chunk(vec![1, 2, 3]),
        HostRead::Chunk(vec![]),
        HostRead::Chunk(vec![255, 0]),
        HostRead::Closed,
    ]);
    assert_eq!(
        pulled,
        vec![Some(Ok(vec![1, 2, 3])), Some(Ok(vec![])), Some(Ok(vec![255, 0])), None]
    );
}

#[test]
fn close_without_chunks() {
    assert_eq!(pull_all(vec![HostRead::Closed]), vec![None]);
}

#[test]
fn chunks_then_failure() {
    let pulled = pull_all(vec![
        HostRead::Chunk(vec![9]),
        HostRead::Chunk(vec![8, 7]),
        HostRead::Failed,
        HostRead::Chunk(vec![6]),
        HostRead::Failed,
        HostRead::Closed,
    ]);
    assert_eq!(
        pulled,
        vec![Some(Ok(vec![9])), Some(Ok(vec![8, 7])), Some(Err(failure())), None, None, None]
    );
}

#[test]
fn nothing_comes_after_the_end() {
    let pulled = pull_all(vec![
        HostRead::Closed,
        HostRead::Chunk(vec![1]),
        HostRead::Failed,
        HostRead::Closed,
    ]);
    assert_eq!(pulled, vec![None, None, None, None]);
}

#[test]
fn stream_is_read_until_it_ends() {
    let mut body = ReadableStreamBody::new();
    assert!(body.wants_read());
    assert_eq!(body.poll_data(HostRead::Chunk(vec![1])), Some(Ok(vec![1])));
    assert!(body.wants_read());
    assert_eq!(body.poll_data(HostRead::Closed), None);
    assert!(!body.wants_read());

    let mut failing = ReadableStreamBody::new();
    assert_eq!(failing.poll_data(HostRead::Failed), Some(Err(failure())));
    assert!(!failing.wants_read());
}

#[test]
fn there_are_never_trailers() {
    let mut body = ReadableStreamBody::new();
    assert_eq!(body.poll_trailers(), Ok(None));
    body.poll_data(HostRead::Chunk(vec![1]));
    assert_eq!(body.poll_trailers(), Ok(None));
    body.poll_data(HostRead::Closed);
    assert_eq!(body.poll_trailers(), Ok(None));
}

#[test]
fn end_is_told_by_a_pull_alone() {
    let mut body = ReadableStreamBody::new();
    assert!(!body.is_end_stream());
    body.poll_data(HostRead::Closed);
    assert!(!body.is_end_stream());
}
