use tokio::sync::mpsc;
use vfp::stream::enqueued;
use vfp::tcp::{bind_address, connect as tcp_connect, listen as tcp_listen};
use vfp::{append_id, connect, listen, NxBoxIo, NxBoxReader, NxBoxWriter, NxClient, NxError};
use vfp::{NxReader, NxWriteChannel, NxWriter};

fn refused() -> std::io::Error {
    std::io::Error::new(std::io::ErrorKind::ConnectionRefused, "refused")
}

fn current_thread() -> tokio::runtime::Runtime {
    tokio::runtime::Builder::new_current_thread().build().unwrap()
}

fn client_on(rt: &tokio::runtime::Runtime) -> (NxClient, mpsc::Receiver<NxWriteChannel>) {
    let (sender, commands) = NxWriter::queue();
    let writer = NxWriter::new(rt.spawn(async {}), sender);
    let pool = std::sync::Arc::new(tokio::sync::Mutex::new(NxReader::empty_pool()));
    let (_announce, taken) = NxReader::rendezvous();
    let reader = NxReader::new(pool, rt.spawn(async {}), taken);
    (connect(Ok((reader, writer))).ok().unwrap(), commands)
}

#[test]
fn forward_sends_a_write_and_ends_on_close() {
    let body = append_id(1, b"x".to_vec());
    assert_eq!(NxWriter::forward(Some(NxWriteChannel::Write(body.clone()))), Some(body));
    assert_eq!(NxWriter::forward(Some(NxWriteChannel::Write(vec![]))), Some(vec![]));
    assert_eq!(NxWriter::forward(Some(NxWriteChannel::Close)), None);
    assert_eq!(NxWriter::forward(None), None);
}

#[test]
fn proceed_ends_on_the_first_failure() {
    assert!(NxWriter::proceed(&Ok(())));
    assert!(!NxWriter::proceed(&Err(refused())));
}

#[test]
fn writes_after_close_are_dropped() {
    let (sender, mut commands) = NxWriter::queue();
    let writer = NxBoxWriter::new(6, sender);
    for payload in [&b"one"[..], &b"two"[..]] {
        writer.writechannel.try_send(writer.write(payload.to_vec())).unwrap();
    }
    writer.writechannel.try_send(NxWriteChannel::Close).unwrap();
    writer.writechannel.try_send(writer.write(b"late".to_vec())).unwrap();
    let mut wire = Vec::new();
    while let Some(body) = NxWriter::forward(commands.try_recv().ok()) {
        wire.push(body);
    }
    assert_eq!(wire, vec![append_id(6, b"one".to_vec()), append_id(6, b"two".to_vec())]);
}

#[test]
fn a_burst_keeps_its_order() {
    let (sender, mut commands) = NxWriter::queue();
    let writer = NxBoxWriter::new(11, sender);
    let mut wire = Vec::new();
    for k in 0..100u32 {
        let message = format!("m_{}", k).into_bytes();
        writer.writechannel.try_send(writer.write(message)).unwrap();
        wire.push(NxWriter::forward(commands.try_recv().ok()).unwrap());
    }
    for (k, body) in wire.into_iter().enumerate() {
        assert_eq!(body, append_id(11, format!("m_{}", k).into_bytes()));
    }
}

#[test]
fn outbound_queue_has_thirty_two_slots() {
    let (sender, _commands) = NxWriter::queue();
    for _ in 0..32 {
        sender.try_send(NxWriteChannel::Close).unwrap();
    }
    assert!(sender.try_send(NxWriteChannel::Close).is_err());
}

#[test]
fn stream_write_tags_with_its_identifier() {
    let (sender, _commands) = NxWriter::queue();
    let writer = NxBoxWriter::new(0x0a0b, sender);
    match writer.write(vec![1, 2, 3]) {
        NxWriteChannel::Write(body) => {
            assert_eq!(&body[..14], &[0u8; 14][..]);
            assert_eq!(&body[14..], &[0x0a, 0x0b, 1, 2, 3][..]);
        }
        NxWriteChannel::Close => panic!("write expected"),
    }
}

#[test]
fn stream_close_closes_the_shared_queue() {
    let (sender, mut commands) = NxWriter::queue();
    let (_feed, inbound) = mpsc::channel(1);
    let io = NxBoxIo::new(2, NxBoxWriter::new(2, sender), NxBoxReader::new(2, inbound));
    let (queue, command) = io.close();
    assert!(matches!(command, NxWriteChannel::Close));
    queue.try_send(command).unwrap();
    assert!(matches!(commands.try_recv(), Ok(NxWriteChannel::Close)));
}

#[test]
fn read_reports_closed_when_the_queue_ended() {
    let (_feed, inbound) = mpsc::channel(1);
    let reader = NxBoxReader::new(2, inbound);
    assert_eq!(reader.read(Some(vec![5, 6])).unwrap(), vec![5, 6]);
    assert_eq!(reader.read(Some(vec![])).unwrap(), Vec::<u8>::new());
    assert!(matches!(reader.read(None), Err(NxError::Closed)));
}

#[test]
fn enqueue_reports_closed_when_the_writer_is_gone() {
    assert!(enqueued(true).is_ok());
    assert!(matches!(enqueued(false), Err(NxError::Closed)));
    let (sender, commands) = NxWriter::queue();
    drop(commands);
    let writer = NxBoxWriter::new(1, sender);
    let taken = writer.writechannel.try_send(writer.write(vec![1])).is_ok();
    assert!(matches!(enqueued(taken), Err(NxError::Closed)));
}

#[test]
fn transport_failures_surface_as_io() {
    assert!(matches!(connect(Err(refused())), Err(NxError::Io(e)) if e.kind() == std::io::ErrorKind::ConnectionRefused));
    assert!(matches!(listen(Err(refused())), Err(NxError::Io(e)) if e.kind() == std::io::ErrorKind::ConnectionRefused));
    assert!(matches!(tcp_connect(Err(refused())), Err(e) if e.kind() == std::io::ErrorKind::ConnectionRefused));
    assert!(matches!(tcp_listen(Err(refused())), Err(e) if e.kind() == std::io::ErrorKind::ConnectionRefused));
}

#[test]
fn the_frame_writer_is_handed_the_body() {
    let body = append_id(3, b"payload".to_vec());
    let buffer = vfp::tcp::TcpWriter::send(body.clone());
    assert_eq!(&buffer[..], &body[..]);
    assert!(vfp::tcp::TcpWriter::send(vec![]).is_empty());
}

#[test]
fn listeners_bind_on_every_interface() {
    assert_eq!(bind_address(&8080), ([0, 0, 0, 0], 8080));
    assert_eq!(bind_address(&0), ([0, 0, 0, 0], 0));
    assert_eq!(bind_address(&65535), ([0, 0, 0, 0], 65535));
}

#[test]
fn client_open_as_enters_the_stream() {
    let rt = current_thread();
    let (client, mut commands) = client_on(&rt);
    let mut pool = NxReader::empty_pool();
    let io = client.open_as(&mut pool, 99);
    assert_eq!((io.id, io.reader.id, io.writer.id), (99, 99, 99));
    assert!(pool.contains_key(&99));
    io.writer.writechannel.try_send(io.write(b"hello".to_vec())).unwrap();
    match commands.try_recv().unwrap() {
        NxWriteChannel::Write(body) => assert_eq!(body, append_id(99, b"hello".to_vec())),
        NxWriteChannel::Close => panic!("write expected"),
    }
}

#[test]
fn a_hundred_opens_give_a_hundred_streams() {
    let rt = current_thread();
    let (client, mut commands) = client_on(&rt);
    let mut pool = NxReader::empty_pool();
    let mut ids = std::collections::HashSet::new();
    for _ in 0..100 {
        let io = client.open(&mut pool).ok().unwrap();
        assert_eq!(io.id & 0xf000_c000_0000_0000_0000, 0x4000_8000_0000_0000_0000);
        ids.insert(io.id);
        io.writer.writechannel.try_send(io.write(vec![])).unwrap();
        assert!(matches!(commands.try_recv(), Ok(NxWriteChannel::Write(_))));
    }
    assert_eq!(ids.len(), 100);
    assert_eq!(pool.len(), 100);
    assert!(ids.iter().all(|id| pool.contains_key(id)));
}

#[test]
fn client_close_stops_the_writer() {
    let rt = current_thread();
    let (client, mut commands) = client_on(&rt);
    client.writer.sender.try_send(client.close()).unwrap();
    assert_eq!(NxWriter::forward(commands.try_recv().ok()), None);
}
