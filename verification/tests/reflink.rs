use std::path::{Path, PathBuf};

use rustix::fd::OwnedFd;
use rustix::fs::{Mode, OFlags};
use rustix::io::Errno;
use tempfile::tempdir;

use reflink_copy::sys::{Action, Error, Event, Platform, Step};
use reflink_copy::{reflink, reflink_or_copy, Reflink, ReflinkOrCopy};

/// The handles of one operation on the file system of this machine.
struct Files {
    from: PathBuf,
    to: PathBuf,
    src: Option<OwnedFd>,
    dest: Option<OwnedFd>,
    performed: Vec<Action>,
}

impl Files {
    fn new(from: &Path, to: &Path) -> Files {
        Files {
            from: from.to_path_buf(),
            to: to.to_path_buf(),
            src: None,
            dest: None,
            performed: Vec::new(),
        }
    }
}

fn error_of(errno: Errno) -> Error {
    if errno == Errno::EXIST {
        Error::AlreadyExists
    } else {
        Error::Os(errno.raw_os_error())
    }
}

fn report(outcome: Result<(), Errno>) -> Event {
    match outcome {
        Ok(()) => Event::Done,
        Err(errno) => Event::Failed(error_of(errno)),
    }
}

fn write_file(path: &Path, content: &[u8]) {
    let fd = rustix::fs::open(
        path,
        OFlags::WRONLY | OFlags::CREATE | OFlags::TRUNC,
        Mode::from_raw_mode(0o644),
    )
    .unwrap();
    let mut written = 0;
    while written < content.len() {
        written += rustix::io::write(&fd, &content[written..]).unwrap();
    }
}

fn read_file(path: &Path) -> Vec<u8> {
    let fd = rustix::fs::open(path, OFlags::RDONLY, Mode::empty()).unwrap();
    let mut content = Vec::new();
    let mut buffer = [0u8; 4096];
    loop {
        let n = rustix::io::read(&fd, &mut buffer).unwrap();
        if n == 0 {
            return content;
        }
        content.extend_from_slice(&buffer[..n]);
    }
}

fn copy_file(from: &Path, to: &Path) -> Result<u64, Errno> {
    let src = rustix::fs::open(from, OFlags::RDONLY, Mode::empty())?;
    let mode = Mode::from_raw_mode(rustix::fs::fstat(&src)?.st_mode & 0o7777);
    let dest = rustix::fs::open(to, OFlags::WRONLY | OFlags::CREATE | OFlags::TRUNC, mode)?;
    rustix::fs::fchmod(&dest, mode)?;
    let mut copied = 0u64;
    let mut buffer = [0u8; 4096];
    loop {
        let n = rustix::io::read(&src, &mut buffer)?;
        if n == 0 {
            return Ok(copied);
        }
        let mut written = 0;
        while written < n {
            written += rustix::io::write(&dest, &buffer[written..n])?;
        }
        copied += n as u64;
    }
}

fn perform(files: &mut Files, action: Action) -> Event {
    files.performed.push(action);
    match action {
        Action::ProbeSource => Event::Probed { is_file: files.from.is_file() },
        Action::OpenSource => match rustix::fs::open(&files.from, OFlags::RDONLY, Mode::empty()) {
            Ok(fd) => {
                files.src = Some(fd);
                Event::Done
            }
            Err(errno) => Event::Failed(error_of(errno)),
        },
        Action::CreateDestination => match rustix::fs::open(
            &files.to,
            OFlags::WRONLY | OFlags::CREATE | OFlags::EXCL,
            Mode::from_raw_mode(0o666),
        ) {
            Ok(fd) => {
                files.dest = Some(fd);
                Event::Done
            }
            Err(errno) => Event::Failed(error_of(errno)),
        },
        Action::CloneExtents => report(rustix::fs::ioctl_ficlone(
            files.dest.as_ref().unwrap(),
            files.src.as_ref().unwrap(),
        )),
        Action::RemoveDestination => {
            files.dest = None;
            report(rustix::fs::unlink(&files.to))
        }
        Action::Copy => match copy_file(&files.from, &files.to) {
            Ok(written) => Event::Copied(written),
            Err(errno) => Event::Failed(error_of(errno)),
        },
        other => panic!("{:?}", other),
    }
}

fn bytes_of(path: &Path) -> &[u8] {
    path.as_os_str().as_encoded_bytes()
}

/// Clones `from` to `to` on this machine and says which actions it took.
fn reflink_on_disk(from: &Path, to: &Path) -> (Result<(), Error>, Vec<Action>) {
    let mut files = Files::new(from, to);
    let mut op = Reflink::new(Platform::Linux, bytes_of(from), bytes_of(to));
    let mut event = Event::Begin;
    loop {
        assert!(op.can_accept(&event));
        let (next, step) = reflink(op, event);
        op = next;
        match step {
            Step::Perform(action) => {
                assert_eq!(op.pending(), Some(action));
                event = perform(&mut files, action);
            }
            Step::Return(result) => return (result, files.performed),
        }
    }
}

fn reflink_or_copy_on_disk(from: &Path, to: &Path) -> (Result<Option<u64>, Error>, Vec<Action>) {
    let mut files = Files::new(from, to);
    let mut op = ReflinkOrCopy::new(Platform::Linux, bytes_of(from), bytes_of(to));
    let mut event = Event::Begin;
    loop {
        assert!(op.can_accept(&event));
        let (next, step) = reflink_or_copy(op, event);
        op = next;
        match step {
            Step::Perform(action) => {
                assert_eq!(op.pending(), Some(action));
                event = perform(&mut files, action);
            }
            Step::Return(result) => return (result, files.performed),
        }
    }
}

#[test]
fn reflink_file_does_not_exist() {
    let from = Path::new("test/nonexistent-bogus-path");
    let to = Path::new("test/other-bogus-path");

    match reflink_on_disk(from, to).0 {
        Ok(..) => panic!(),
        Err(..) => {
            assert!(!from.exists());
            assert!(!to.exists());
        }
    }
}

#[test]
fn reflink_src_does_not_exist() {
    let tmpdir = tempdir().unwrap();
    let from = Path::new("test/nonexistent-bogus-path");
    let to = tmpdir.path().join("out.txt");

    write_file(&to, b"hello");
    assert!(reflink_on_disk(from, &to).0.is_err());

    assert!(!from.exists());
    assert_eq!(read_file(&to), b"hello");
}

#[test]
fn reflink_dest_is_dir() {
    let dir = tempdir().unwrap();
    let src_file_path = dir.path().join("src.txt");
    write_file(&src_file_path, b"");
    match reflink_on_disk(&src_file_path, dir.path()).0 {
        Ok(()) => panic!(),
        Err(e) => {
            println!("{:?}", e);
            assert_eq!(e, Error::AlreadyExists);
        }
    }
}

#[test]
fn reflink_src_is_dir() {
    let dir = tempdir().unwrap();
    let dest_file_path = dir.path().join("dest.txt");

    match reflink_on_disk(dir.path(), &dest_file_path).0 {
        Ok(()) => panic!(),
        Err(e) => {
            println!("{:?}", e);
            assert_eq!(e, Error::InvalidInput)
        }
    }
}

#[test]
fn reflink_existing_dest_results_in_error() {
    let dir = tempdir().unwrap();
    let src_file_path = dir.path().join("src.txt");
    let dest_file_path = dir.path().join("dest.txt");

    write_file(&src_file_path, b"");
    write_file(&dest_file_path, b"");

    match reflink_on_disk(&src_file_path, &dest_file_path).0 {
        Ok(()) => panic!(),
        Err(e) => {
            println!("{:?}", e);
            assert_eq!(e, Error::AlreadyExists)
        }
    }
}

#[test]
fn reflink_ok() {
    let dir = tempdir().unwrap();
    let src_file_path = dir.path().join("src.txt");
    let dest_file_path = dir.path().join("dest.txt");

    write_file(&src_file_path, b"this is a test");

    match reflink_on_disk(&src_file_path, &dest_file_path).0 {
        Ok(()) => {}
        Err(e) => {
            println!("{:?}", e);
            // a file system that cannot clone is no failure of the library
            return;
        }
    }
    assert_eq!(read_file(&dest_file_path), b"this is a test");
}

#[test]
fn reflink_or_copy_ok() {
    let tmpdir = tempdir().unwrap();
    let input = tmpdir.path().join("in.txt");
    let out = tmpdir.path().join("out.txt");

    write_file(&input, b"hello");

    reflink_or_copy_on_disk(&input, &out).0.unwrap();

    assert_eq!(read_file(&out), b"hello");

    assert_eq!(
        rustix::fs::stat(&input).unwrap().st_mode,
        rustix::fs::stat(&out).unwrap().st_mode
    );
}

#[test]
fn missing_source_asks_only_for_the_probe() {
    let dir = tempdir().unwrap();
    let from = dir.path().join("missing.txt");
    let to = dir.path().join("dest.txt");

    let (result, performed) = reflink_on_disk(&from, &to);
    assert_eq!(result, Err(Error::InvalidInput));
    assert_eq!(performed, vec![Action::ProbeSource]);
    assert!(!to.exists());
}

#[test]
fn existing_dest_keeps_its_content() {
    let dir = tempdir().unwrap();
    let from = dir.path().join("src.txt");
    let to = dir.path().join("dest.txt");
    write_file(&from, b"new content");
    write_file(&to, b"old content");

    let (result, performed) = reflink_on_disk(&from, &to);
    assert_eq!(result, Err(Error::AlreadyExists));
    assert_eq!(
        performed,
        vec![Action::ProbeSource, Action::OpenSource, Action::CreateDestination]
    );
    assert_eq!(read_file(&to), b"old content");
}

#[test]
fn clone_copies_or_leaves_nothing() {
    let dir = tempdir().unwrap();
    let from = dir.path().join("src.txt");
    let to = dir.path().join("dest.txt");
    write_file(&from, b"some bytes to share");

    let (result, performed) = reflink_on_disk(&from, &to);
    match result {
        Ok(()) => {
            assert_eq!(read_file(&to), b"some bytes to share");
            assert_eq!(performed.last(), Some(&Action::CloneExtents));
        }
        Err(e) => {
            assert!(matches!(e, Error::Os(_)), "{:?}", e);
            assert_eq!(performed.last(), Some(&Action::RemoveDestination));
            assert!(!to.exists());
        }
    }
    assert_eq!(read_file(&from), b"some bytes to share");
}

#[test]
fn repeated_failures_leave_no_file() {
    let dir = tempdir().unwrap();
    let from = dir.path().join("src.txt");
    let to = dir.path().join("dest.txt");
    write_file(&from, b"again and again");

    for _ in 0..5 {
        match reflink_on_disk(&from, &to).0 {
            Ok(()) => {
                assert_eq!(read_file(&to), b"again and again");
                rustix::fs::unlink(&to).unwrap();
            }
            Err(_) => assert!(!to.exists()),
        }
    }
}

#[test]
fn empty_source_gives_empty_destination() {
    let dir = tempdir().unwrap();
    let from = dir.path().join("empty.txt");
    let to = dir.path().join("dest.txt");
    write_file(&from, b"");

    match reflink_or_copy_on_disk(&from, &to).0 {
        Ok(None) => {}
        Ok(Some(written)) => assert_eq!(written, 0),
        Err(e) => panic!("{:?}", e),
    }
    assert_eq!(read_file(&to), b"");
}

#[test]
fn copy_reports_the_length_of_the_source() {
    let dir = tempdir().unwrap();
    let from = dir.path().join("in.txt");
    let to = dir.path().join("out.txt");
    let content = vec![7u8; 10_000];
    write_file(&from, &content);

    let (result, performed) = reflink_or_copy_on_disk(&from, &to);
    match result {
        Ok(None) => assert_eq!(performed.last(), Some(&Action::CloneExtents)),
        Ok(Some(written)) => {
            assert_eq!(written, 10_000);
            assert_eq!(performed.last(), Some(&Action::Copy));
        }
        Err(e) => panic!("{:?}", e),
    }
    assert_eq!(read_file(&to), content);
}
