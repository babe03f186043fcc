use r3d_rs::{
    path_created, read_step, FileAccess, FilesystemIo, HandleTable, IoBridge, IoInterface,
    OpenOutcome, OsFailure, ReadEvent, ReadStep, StreamIo, HANDLE_ERROR, HANDLE_FALLBACK,
};

fn clip_bytes() -> Vec<u8> {
    (0..100u32).map(|i| i as u8).collect()
}

#[test]
fn named_stream_reads_the_last_ten_bytes() {
    let mut io = StreamIo::new();
    io.insert("clip.dat", clip_bytes());
    let h = io.open("clip.dat", FileAccess::Read);
    assert_ne!(h, HANDLE_ERROR);
    assert_ne!(h, HANDLE_FALLBACK);
    assert_eq!(io.filesize(h), 100);
    let mut buf = [0u8; 10];
    assert!(io.read(&mut buf, 90, h));
    assert_eq!(buf.to_vec(), (90..100u32).map(|i| i as u8).collect::<Vec<u8>>());
}

#[test]
fn named_stream_refuses_a_read_past_the_end() {
    let mut io = StreamIo::new();
    io.insert("clip.dat", clip_bytes());
    let h = io.open("clip.dat", FileAccess::Read);
    let mut buf = [0xAAu8; 40];
    assert!(!io.read(&mut buf, 90, h));
    assert_eq!(buf, [0xAAu8; 40]);
    assert!(!io.read(&mut buf, 101, h));
    let mut empty: [u8; 0] = [];
    assert!(io.read(&mut empty, 100, h));
}

#[test]
fn named_stream_sentinels() {
    let mut io = StreamIo::from_iter(vec![("clip.dat".to_string(), clip_bytes())]);
    assert_eq!(io.open("other.dat", FileAccess::Read), HANDLE_ERROR);
    assert_eq!(io.open("clip.dat", FileAccess::Write), HANDLE_FALLBACK);
    assert_eq!(io.open("missing.dat", FileAccess::Write), HANDLE_FALLBACK);
    assert!(!io.write(&[1, 2, 3], 1));
    assert!(!io.create_path("out"));
}

#[test]
fn named_stream_handles_are_independent() {
    let mut io = StreamIo::new();
    io.insert("a", vec![1, 2, 3]);
    io.insert("b", vec![4, 5]);
    let a1 = io.open("a", FileAccess::Read);
    let a2 = io.open("a", FileAccess::Read);
    let b = io.open("b", FileAccess::Read);
    assert!(a1 != a2 && a2 != b && a1 != b);
    io.close(a1);
    let mut buf = [0u8; 3];
    assert!(!io.read(&mut buf, 0, a1));
    assert!(io.read(&mut buf, 0, a2));
    assert_eq!(buf, [1, 2, 3]);
    assert_eq!(io.filesize(b), 2);
}

#[test]
fn closing_unknown_or_closed_handles_is_harmless() {
    let mut io = StreamIo::new();
    io.insert("a", vec![9, 8, 7]);
    let h = io.open("a", FileAccess::Read);
    io.close(12345);
    io.close(HANDLE_FALLBACK);
    io.close(HANDLE_ERROR);
    let other = io.open("a", FileAccess::Read);
    io.close(other);
    io.close(other);
    let mut buf = [0u8; 3];
    assert!(io.read(&mut buf, 0, h));
    assert_eq!(buf, [9, 8, 7]);
    assert_eq!(io.filesize(other), 0);
}

#[test]
fn replacing_an_entry_keeps_open_handles() {
    let mut io = StreamIo::new();
    io.insert("a", vec![1, 1]);
    let old = io.open("a", FileAccess::Read);
    io.insert("a", vec![2, 2, 2]);
    let new = io.open("a", FileAccess::Read);
    assert_eq!(io.filesize(old), 2);
    assert_eq!(io.filesize(new), 3);
}

#[test]
fn later_entries_replace_earlier_ones() {
    let mut io = StreamIo::from_iter(vec![
        ("x".to_string(), vec![1]),
        ("x".to_string(), vec![1, 2]),
    ]);
    let h = io.open("x", FileAccess::Read);
    assert_eq!(io.filesize(h), 2);
}

#[test]
fn retired_handles_are_never_reissued() {
    let mut t: HandleTable<u8> = HandleTable::new();
    let a = t.issue(1);
    assert_eq!(t.retire(a), Some(1));
    let b = t.issue(2);
    assert_ne!(a, b);
    assert_eq!(t.get(a), None);
    assert_eq!(t.retire(a), None);
    assert_eq!(t.get(b), Some(&2));
    assert!(t.has_room());
}

#[test]
fn filesystem_open_outcomes() {
    let mut fs: FilesystemIo<&str> = FilesystemIo::new();
    assert_eq!(fs.register_open(OpenOutcome::Failed(OsFailure::NotFound)), HANDLE_ERROR);
    assert_eq!(fs.register_open(OpenOutcome::Failed(OsFailure::Other)), HANDLE_FALLBACK);
    assert_eq!(fs.register_open(OpenOutcome::Unpositioned), HANDLE_ERROR);
    let h = fs.register_open(OpenOutcome::Opened("file"));
    assert_eq!(fs.file(h), Some(&"file"));
    assert_eq!(fs.close(h), Some("file"));
    assert_eq!(fs.close(h), None);
    assert_eq!(fs.file(h), None);
}

#[test]
fn create_path_outcomes() {
    assert!(path_created(Ok(())));
    assert!(path_created(Err(OsFailure::AlreadyExists)));
    assert!(!path_created(Err(OsFailure::Other)));
    assert!(!path_created(Err(OsFailure::NotFound)));
}

#[test]
fn reads_succeed_only_when_full() {
    assert_eq!(read_step(0, 10, ReadEvent::Got(4)), ReadStep::More(4));
    assert_eq!(read_step(4, 10, ReadEvent::Got(6)), ReadStep::Done(true));
    assert_eq!(read_step(4, 10, ReadEvent::EndOfData), ReadStep::Done(false));
    assert_eq!(read_step(0, 10, ReadEvent::Failed), ReadStep::Done(false));
}

#[test]
fn bridge_routes_to_the_installed_backend() {
    let mut bridge: IoBridge<Box<dyn IoInterface>> = IoBridge::new();
    assert_eq!(bridge.open(Some("clip.dat"), 1), HANDLE_FALLBACK);
    let mut io = StreamIo::new();
    io.insert("clip.dat", clip_bytes());
    assert!(bridge.install(Box::new(io)).is_none());
    assert!(bridge.is_installed());
    assert_eq!(bridge.open(None, 1), HANDLE_FALLBACK);
    assert_eq!(bridge.open(Some("clip.dat"), 3), HANDLE_FALLBACK);
    assert_eq!(bridge.open(Some("nope"), 1), HANDLE_ERROR);
    let h = bridge.open(Some("clip.dat"), 1);
    assert_eq!(bridge.filesize(h), 100);
    let mut buf = [0u8; 2];
    assert!(bridge.read(Some(&mut buf), 0, h));
    assert_eq!(buf, [0, 1]);
    assert!(!bridge.read(None, 0, h));
    assert!(!bridge.write(Some(&[1]), h));
    assert!(!bridge.create_path(Some("dir")));
    bridge.close(h);
    assert_eq!(bridge.filesize(h), 0);
    assert!(bridge.reset().is_some());
    assert!(!bridge.is_installed());
    assert_eq!(bridge.filesize(h), 0);
}

#[test]
fn access_codes() {
    assert_eq!(FileAccess::from_code(1), Some(FileAccess::Read));
    assert_eq!(FileAccess::from_code(2), Some(FileAccess::Write));
    assert_eq!(FileAccess::from_code(0), None);
    assert_eq!(FileAccess::Write.code(), 2);
}
