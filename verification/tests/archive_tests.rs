use fake_cdn::archive::{screen_entries, screen_tgz, ArchiveError};
use std::io::Write;

fn tgz(paths: &[&str]) -> Vec<u8> {
    tgz_with(paths, b"hello")
}

fn tgz_with(paths: &[&str], data: &[u8]) -> Vec<u8> {
    let mut builder = tar::Builder::new(Vec::new());
    for p in paths {
        let mut header = tar::Header::new_gnu();
        header.set_size(data.len() as u64);
        header.set_mode(0o644);
        header.set_cksum();
        builder.append_data(&mut header, p, data).unwrap();
    }
    let tar_bytes = builder.into_inner().unwrap();
    let mut enc = flate2::write::GzEncoder::new(Vec::new(), flate2::Compression::default());
    enc.write_all(&tar_bytes).unwrap();
    enc.finish().unwrap()
}

#[test]
fn clean_archive_passes() {
    assert!(screen_tgz(&tgz(&["index.html", "css/site.css"])).is_ok());
    assert!(screen_tgz(&tgz(&[])).is_ok());
}

#[test]
fn first_unsafe_entry_is_reported() {
    match screen_tgz(&tgz(&["ok.txt", "bad name.txt", "also bad?.txt"])) {
        Err(ArchiveError::UnsafePath(p)) => assert_eq!(p, "bad name.txt"),
        other => panic!("unexpected {:?}", other),
    }
}

#[test]
fn data_that_is_not_gzip_is_an_io_error() {
    assert!(matches!(screen_tgz(b"not a gzip stream"), Err(ArchiveError::Io(_))));
}

#[test]
fn entries_are_screened_in_order() {
    let es = vec![
        Ok(Some("a".to_string())),
        Ok(None),
        Ok(Some("b c".to_string())),
    ];
    assert!(matches!(screen_entries(es), Err(ArchiveError::NonUtf8Path(1))));
    let es = vec![
        Ok(Some("a".to_string())),
        Ok(Some("b c".to_string())),
        Err(std::io::Error::new(std::io::ErrorKind::Other, "boom")),
    ];
    match screen_entries(es) {
        Err(ArchiveError::UnsafePath(p)) => assert_eq!(p, "b c"),
        other => panic!("unexpected {:?}", other),
    }
    let es = vec![Ok(Some("a".to_string())), Err(std::io::Error::new(std::io::ErrorKind::Other, "boom"))];
    match screen_entries(es) {
        Err(ArchiveError::Io(e)) => assert_eq!(e.to_string(), "boom"),
        other => panic!("unexpected {:?}", other),
    }
    assert!(screen_entries(Vec::new()).is_ok());
}

#[test]
fn unsafe_path_before_corrupt_tail_is_reported() {
    // Incompressible content, so the corrupt end of the stream lies far behind
    // the first entry's header.
    let mut state: u32 = 12345;
    let data: Vec<u8> = (0..300_000)
        .map(|_| {
            state = state.wrapping_mul(1103515245).wrapping_add(12345);
            (state >> 16) as u8
        })
        .collect();
    let mut gz = tgz_with(&["bad name.txt", "later.bin"], &data);
    let n = gz.len();
    gz.truncate(n - 100);
    match screen_tgz(&gz) {
        Err(ArchiveError::UnsafePath(p)) => assert_eq!(p, "bad name.txt"),
        other => panic!("unexpected {:?}", other),
    }
    // The same corrupt archive with safe paths fails on reading.
    let mut gz = tgz_with(&["good.txt", "later.bin"], &data);
    let n = gz.len();
    gz.truncate(n - 100);
    assert!(matches!(screen_tgz(&gz), Err(ArchiveError::Io(_))));
}

#[test]
fn first_read_error_is_the_one_reported() {
    let es = vec![
        Ok(Some("a".to_string())),
        Err(std::io::Error::new(std::io::ErrorKind::Other, "first")),
        Err(std::io::Error::new(std::io::ErrorKind::Other, "second")),
    ];
    match screen_entries(es) {
        Err(ArchiveError::Io(e)) => assert_eq!(e.to_string(), "first"),
        other => panic!("unexpected {:?}", other),
    }
}
