use sunset::ident::RemoteVersion;
use sunset::error::Error;

#[test]
fn ident_skips_banner_lines() {
    let mut v = RemoteVersion::new();
    let input = b"hello there\r\nSSH-2.0-OpenSSH_9.0 extra\r\n\x00\x00\x00\x0c";
    let n = v.consume(input).unwrap();
    assert_eq!(n, input.len() - 4);
    assert_eq!(v.version().unwrap(), b"SSH-2.0-OpenSSH_9.0 extra".to_vec());
}

#[test]
fn ident_in_pieces() {
    let mut v = RemoteVersion::new();
    assert_eq!(v.consume(b"SSH-2.0-te"), Ok(10));
    assert!(v.version().is_err());
    assert_eq!(v.consume(b"st\r\n"), Ok(4));
    assert_eq!(v.version().unwrap(), b"SSH-2.0-test".to_vec());
}

#[test]
fn ident_rejects_old_version() {
    let mut v = RemoteVersion::new();
    assert_eq!(v.consume(b"SSH-1.5-old\r\n"), Err(Error::BadVersion));
}

#[test]
fn ident_rejects_long_line() {
    let mut v = RemoteVersion::new();
    let long = vec![b'a'; 300];
    assert_eq!(v.consume(&long), Err(Error::BadVersion));
}
