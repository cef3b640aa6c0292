use std::sync::Arc;
use std::time::Duration;

use bytes::{Bytes, BytesMut};
use futures::SinkExt;
use tokio::io::DuplexStream;
use tokio::sync::Mutex;
use tokio_stream::StreamExt;
use tokio_util::codec::{FramedRead, FramedWrite, LengthDelimitedCodec};
use vfp::stream::enqueued;
use vfp::{append_id, NxBoxIo, NxClient, NxError, NxPool, NxReader, NxRoute, NxSession, NxWriter};

fn io_runtime() -> tokio::runtime::Runtime {
    tokio::runtime::Builder::new_current_thread().enable_all().build().unwrap()
}

fn start_reader(source: DuplexStream) -> NxReader {
    let mut frames = FramedRead::new(source, LengthDelimitedCodec::new());
    let pool: NxPool = Arc::new(Mutex::new(NxReader::empty_pool()));
    let shared = pool.clone();
    let (notify, taken) = NxReader::rendezvous();
    let task = tokio::spawn(async move {
        loop {
            let frame: Option<Result<BytesMut, std::io::Error>> = frames.next().await;
            let route = {
                let mut table = shared.lock().await;
                NxReader::dispatch(&mut table, frame)
            };
            let announced = match route {
                NxRoute::Stop => break,
                NxRoute::Skip => continue,
                NxRoute::Deliver { sender, payload, .. } => {
                    let _ = sender.send(payload).await;
                    continue;
                }
                NxRoute::Announce { id, payload } => (id, payload),
            };
            if notify.send(announced).await.is_err() {
                break;
            }
        }
    });
    NxReader::new(pool, task, taken)
}

fn start_writer(sink: DuplexStream) -> NxWriter {
    let mut frames = FramedWrite::new(sink, LengthDelimitedCodec::new());
    let (sender, mut commands) = NxWriter::queue();
    let task = tokio::spawn(async move {
        while let Some(body) = NxWriter::forward(commands.recv().await) {
            if !NxWriter::proceed(&frames.send(Bytes::from(body)).await) {
                break;
            }
        }
    });
    NxWriter::new(task, sender)
}

fn client_over(source: DuplexStream, sink: DuplexStream) -> NxClient {
    vfp::connect(Ok((start_reader(source), start_writer(sink)))).ok().unwrap()
}

fn session_over(source: DuplexStream, sink: DuplexStream) -> NxSession {
    NxSession::new(start_reader(source), start_writer(sink))
}

/// A client and the session that its peer holds, over two pipes in memory,
/// one for each direction, so that either side can end its own.
fn linked() -> (NxClient, NxSession) {
    let (near_sink, far_source) = tokio::io::duplex(1 << 12);
    let (far_sink, near_source) = tokio::io::duplex(1 << 12);
    (client_over(near_source, near_sink), session_over(far_source, far_sink))
}

async fn next_stream(session: &mut NxSession) -> Option<NxBoxIo> {
    let announced = session.reader.newidreceiver.recv().await;
    let pool = session.reader.pool.clone();
    let mut table = pool.lock().await;
    session.next(&mut table, announced)
}

async fn open_stream(client: &NxClient) -> NxBoxIo {
    let pool = client.reader.pool.clone();
    let mut table = pool.lock().await;
    client.open(&mut table).ok().unwrap()
}

async fn read_one(io: &mut NxBoxIo) -> Result<Vec<u8>, NxError> {
    let received = io.reader.receiver.recv().await;
    io.read(received)
}

async fn write_one(io: &NxBoxIo, message: &[u8]) -> Result<(), NxError> {
    let command = io.write(message.to_vec());
    enqueued(io.writer.writechannel.send(command).await.is_ok())
}

/// A client whose peer echoes every payload of every stream.
fn echoed() -> NxClient {
    let (client, mut session) = linked();
    tokio::spawn(async move {
        while let Some(mut io) = next_stream(&mut session).await {
            tokio::spawn(async move {
                while let Ok(chunk) = read_one(&mut io).await {
                    if write_one(&io, &chunk).await.is_err() {
                        break;
                    }
                }
            });
        }
    });
    client
}

fn scrambled(len: usize) -> Vec<u8> {
    let mut state: u64 = 0x9e37_79b9_7f4a_7c15;
    (0..len)
        .map(|_| {
            state = state.wrapping_mul(6364136223846793005).wrapping_add(1442695040888963407);
            (state >> 56) as u8
        })
        .collect()
}

#[test]
fn echo_round_trip() {
    io_runtime().block_on(async {
        let client = echoed();
        let mut io = open_stream(&client).await;
        write_one(&io, &[0x01, 0x02, 0x03]).await.unwrap();
        assert_eq!(read_one(&mut io).await.unwrap(), vec![0x01, 0x02, 0x03]);
        write_one(&io, b"hello").await.unwrap();
        assert_eq!(read_one(&mut io).await.unwrap(), b"hello".to_vec());
        let closing = client.close();
        assert!(enqueued(client.writer.sender.send(closing).await.is_ok()).is_ok());
    });
}

#[test]
fn two_streams_on_one_connection() {
    io_runtime().block_on(async {
        let client = echoed();
        let mut s1 = open_stream(&client).await;
        let mut s2 = open_stream(&client).await;
        assert_ne!(s1.id, s2.id);
        write_one(&s1, b"x").await.unwrap();
        write_one(&s2, b"y").await.unwrap();
        assert_eq!(read_one(&mut s1).await.unwrap(), b"x".to_vec());
        assert_eq!(read_one(&mut s2).await.unwrap(), b"y".to_vec());
        write_one(&s1, b"a").await.unwrap();
        write_one(&s2, b"b").await.unwrap();
        write_one(&s1, b"aa").await.unwrap();
        write_one(&s2, b"bb").await.unwrap();
        assert_eq!(read_one(&mut s2).await.unwrap(), b"b".to_vec());
        assert_eq!(read_one(&mut s2).await.unwrap(), b"bb".to_vec());
        assert_eq!(read_one(&mut s1).await.unwrap(), b"a".to_vec());
        assert_eq!(read_one(&mut s1).await.unwrap(), b"aa".to_vec());
    });
}

#[test]
fn remote_open_delivers_the_first_write() {
    io_runtime().block_on(async {
        let (client, mut session) = linked();
        let io = open_stream(&client).await;
        write_one(&io, b"first words").await.unwrap();
        let mut remote = next_stream(&mut session).await.unwrap();
        assert_eq!(remote.id, io.id);
        write_one(&io, b"second").await.unwrap();
        assert_eq!(read_one(&mut remote).await.unwrap(), b"first words".to_vec());
        assert_eq!(read_one(&mut remote).await.unwrap(), b"second".to_vec());
        assert_eq!(session.reader.pool.lock().await.len(), 1);
    });
}

#[test]
fn large_payload_round_trip() {
    io_runtime().block_on(async {
        let client = echoed();
        let mut io = open_stream(&client).await;
        let payload = scrambled(64 * 1024);
        write_one(&io, &payload).await.unwrap();
        assert_eq!(read_one(&mut io).await.unwrap(), payload);
    });
}

#[test]
fn burst_then_close() {
    io_runtime().block_on(async {
        let client = echoed();
        let mut io = open_stream(&client).await;
        let sender = io.writer.writechannel.clone();
        let id = io.id;
        let writing = tokio::spawn(async move {
            for k in 0..100u32 {
                let body = append_id(id, format!("m_{}", k).into_bytes());
                sender.send(vfp::NxWriteChannel::Write(body)).await.unwrap();
            }
        });
        for k in 0..100u32 {
            assert_eq!(read_one(&mut io).await.unwrap(), format!("m_{}", k).into_bytes());
        }
        writing.await.unwrap();
        let closing = client.close();
        assert!(enqueued(client.writer.sender.send(closing).await.is_ok()).is_ok());
    });
}

#[test]
fn close_is_seen_by_later_writes_and_reads() {
    io_runtime().block_on(async {
        let (mut client, mut session) = linked();
        let mut io = open_stream(&client).await;
        let closing = client.close();
        assert!(enqueued(client.writer.sender.send(closing).await.is_ok()).is_ok());
        (&mut client.writer.receiver).await.unwrap();
        assert!(matches!(write_one(&io, b"late").await, Err(NxError::Closed)));
        let closing = client.close();
        assert!(matches!(
            enqueued(client.writer.sender.send(closing).await.is_ok()),
            Err(NxError::Closed)
        ));
        // The peer's demultiplexer sees the end of the transport.
        assert!(next_stream(&mut session).await.is_none());
        // With the peer gone, this side's demultiplexer ends too, and the
        // pending read sees the stream closed.
        session.writer.receiver.abort();
        drop(session);
        assert!(matches!(read_one(&mut io).await, Err(NxError::Closed)));
        (&mut client.reader.receiver).await.unwrap();
    });
}

#[test]
fn aborting_the_demultiplexer_ends_every_read() {
    io_runtime().block_on(async {
        let (mut client, _session) = linked();
        let mut one = open_stream(&client).await;
        let mut two = open_stream(&client).await;
        {
            let pool = client.reader.pool.clone();
            let mut table = pool.lock().await;
            client.reader.close(&mut table);
        }
        assert!((&mut client.reader.receiver).await.unwrap_err().is_cancelled());
        assert!(matches!(read_one(&mut one).await, Err(NxError::Closed)));
        assert!(matches!(read_one(&mut two).await, Err(NxError::Closed)));
    });
}

#[test]
fn bad_frame_is_tolerated() {
    io_runtime().block_on(async {
        let (near_sink, far_source) = tokio::io::duplex(1 << 12);
        let (far_sink, _near_source) = tokio::io::duplex(1 << 12);
        let mut session = session_over(far_source, far_sink);
        let mut wire = FramedWrite::new(near_sink, LengthDelimitedCodec::new());
        wire.send(Bytes::from(append_id(5, b"one".to_vec()))).await.unwrap();
        let mut five = next_stream(&mut session).await.unwrap();
        assert_eq!(five.id, 5);
        wire.send(Bytes::from(vec![1u8, 2, 3, 4, 5, 6, 7, 8])).await.unwrap();
        wire.send(Bytes::from(append_id(5, b"two".to_vec()))).await.unwrap();
        wire.send(Bytes::from(append_id(6, b"other".to_vec()))).await.unwrap();
        let mut six = next_stream(&mut session).await.unwrap();
        assert_eq!(six.id, 6);
        assert_eq!(read_one(&mut five).await.unwrap(), b"one".to_vec());
        assert_eq!(read_one(&mut five).await.unwrap(), b"two".to_vec());
        assert_eq!(read_one(&mut six).await.unwrap(), b"other".to_vec());
        let waited = tokio::time::timeout(Duration::from_millis(100), read_one(&mut five)).await;
        assert!(waited.is_err());
        assert_eq!(session.reader.pool.lock().await.len(), 2);
    });
}

#[test]
fn frames_before_the_installation_are_announced_again() {
    io_runtime().block_on(async {
        let (near_sink, far_source) = tokio::io::duplex(1 << 12);
        let (far_sink, _near_source) = tokio::io::duplex(1 << 12);
        let mut session = session_over(far_source, far_sink);
        let mut wire = FramedWrite::new(near_sink, LengthDelimitedCodec::new());
        wire.send(Bytes::from(append_id(5, b"one".to_vec()))).await.unwrap();
        wire.send(Bytes::from(append_id(5, b"two".to_vec()))).await.unwrap();
        tokio::time::sleep(Duration::from_millis(50)).await;
        let mut first = next_stream(&mut session).await.unwrap();
        let mut second = next_stream(&mut session).await.unwrap();
        assert_eq!((first.id, second.id), (5, 5));
        assert_eq!(read_one(&mut first).await.unwrap(), b"one".to_vec());
        assert_eq!(read_one(&mut second).await.unwrap(), b"two".to_vec());
        assert_eq!(session.reader.pool.lock().await.len(), 1);
    });
}

#[test]
fn frames_carry_a_four_byte_length_and_the_identifier() {
    io_runtime().block_on(async {
        let (near_sink, mut peer) = tokio::io::duplex(1 << 12);
        let (_far_sink, near_source) = tokio::io::duplex(1 << 12);
        let client = client_over(near_source, near_sink);
        let io = open_stream(&client).await;
        write_one(&io, b"abc").await.unwrap();
        let mut seen = vec![0u8; 4 + 16 + 3];
        tokio::io::AsyncReadExt::read_exact(&mut peer, &mut seen).await.unwrap();
        assert_eq!(&seen[..4], &[0, 0, 0, 19][..]);
        assert_eq!(&seen[4..20], &io.id.to_be_bytes()[..]);
        assert_eq!(&seen[20..], &b"abc"[..]);
    });
}
