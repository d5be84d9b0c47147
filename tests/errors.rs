use sockit::{surface_codec, surface_io, UdpSocketError};

#[test]
fn io_success_passes_through() {
    let r = surface_io(Ok::<u32, std::io::Error>(41));
    assert!(matches!(r, Ok(41)));
}

#[test]
fn io_failure_becomes_io_error() {
    let r = surface_io::<u32>(Err(std::io::Error::new(std::io::ErrorKind::AddrInUse, "in use")));
    match r {
        Err(UdpSocketError::IoError(e)) => assert_eq!(e.kind(), std::io::ErrorKind::AddrInUse),
        _ => panic!("expected an IoError"),
    }
}

#[test]
fn codec_success_passes_through() {
    let r = surface_codec(Ok::<Vec<u8>, bincode::Error>(vec![1, 2]));
    assert!(matches!(r, Ok(ref v) if v == &vec![1, 2]));
}

#[test]
fn codec_failure_becomes_bincode_error() {
    let r = surface_codec::<u8>(Err(Box::new(bincode::ErrorKind::SizeLimit)));
    match r {
        Err(UdpSocketError::BincodeError(e)) => assert!(matches!(*e, bincode::ErrorKind::SizeLimit)),
        _ => panic!("expected a BincodeError"),
    }
}

#[test]
fn from_conversions_pick_the_kind() {
    let io = UdpSocketError::from(std::io::Error::new(std::io::ErrorKind::Other, "x"));
    assert!(matches!(io, UdpSocketError::IoError(_)));
    let codec = UdpSocketError::from(Box::new(bincode::ErrorKind::SizeLimit));
    assert!(matches!(codec, UdpSocketError::BincodeError(_)));
}
