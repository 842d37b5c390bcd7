use pls::rngs::{
    fill_inner, fill_uninit, u32, u32_from_bytes, u32_from_source, u64, u64_from_bytes,
    u64_from_source, SysError, SysErrorDisplay, SysRng, CUSTOM_START,
    INTERNAL_START,
};

#[test]
fn internal_errors() {
    assert_eq!(SysError::unsupported().code(), INTERNAL_START);
    assert_eq!(SysError::errno_not_positive().code(), INTERNAL_START + 1);
    assert_eq!(SysError::unexpected().code(), INTERNAL_START + 2);
    assert_eq!(SysError::new_custom(5).code(), CUSTOM_START + 5);
    assert_eq!(SysError::unexpected().raw_os_error(), None);
    assert_eq!(SysError::new_custom(0).raw_os_error(), None);
}

#[test]
fn errno_roundtrip() {
    for e in [1, 2, 13, 4096, i32::MAX] {
        assert_eq!(SysError::from_errno(e).raw_os_error(), Some(e));
    }
    assert_eq!(SysError::from_errno(0).code(), INTERNAL_START + 1);
    assert_eq!(SysError::from_errno(-4).code(), INTERNAL_START + 1);
}

#[test]
fn negative_codes() {
    assert_eq!(SysError::from_neg_error_code(-9).raw_os_error(), Some(9));
    assert_eq!(SysError::from_neg_error_code(i32::MIN).raw_os_error(), None);
    assert_eq!(SysError::from_neg_error_code(0).code(), INTERNAL_START + 2);
    assert_eq!(SysError::from_neg_error_code(3).code(), INTERNAL_START + 2);
}

#[test]
fn descriptions() {
    assert_eq!(
        SysError::unsupported().internal_desc(),
        Some("getrandom: this target is not supported")
    );
    assert_eq!(
        SysError::errno_not_positive().internal_desc(),
        Some("errno: did not return a positive value")
    );
    assert_eq!(SysError::unexpected().internal_desc(), Some("unexpected situation"));
    assert_eq!(SysError::new_custom(1).internal_desc(), None);
    assert_eq!(SysError::from_errno(2).internal_desc(), None);
}

#[test]
fn display_kinds() {
    match SysError::from_errno(2).display() {
        SysErrorDisplay::Os(n) => assert_eq!(n, 2),
        _ => panic!("expected an OS error"),
    }
    match SysError::unexpected().display() {
        SysErrorDisplay::Internal(d) => assert_eq!(d, "unexpected situation"),
        _ => panic!("expected an internal error"),
    }
    match SysError::new_custom(3).display() {
        SysErrorDisplay::Unknown(s) => assert_eq!(s, "Unknown Error: 131075"),
        _ => panic!("expected an unknown error"),
    }
    match SysError::from_neg_error_code(i32::MIN).display() {
        SysErrorDisplay::Unknown(s) => assert_eq!(s, format!("Unknown Error: {}", i32::MIN)),
        _ => panic!("expected an unknown error"),
    }
}

#[test]
fn filling_from_the_system() {
    let mut buf = [0u8; 64];
    assert!(fill_inner(&mut buf).is_ok());
    assert!(buf.iter().any(|b| *b != 0));
    let mut empty: [u8; 0] = [];
    assert!(fill_uninit(&mut empty).is_ok());
    let mut buf2 = [0u8; 64];
    assert!(fill_uninit(&mut buf2).is_ok());
    assert_ne!(buf, buf2);
}

#[test]
fn random_words() {
    let a: Vec<u64> = (0..4).map(|_| u64().unwrap()).collect();
    assert!(a.windows(2).any(|w| w[0] != w[1]));
    let b: Vec<u32> = (0..8).map(|_| u32().unwrap()).collect();
    assert!(b.windows(2).any(|w| w[0] != w[1]));
    let mut rng = SysRng;
    assert!(rng.try_next_u32().is_ok());
    assert!(rng.try_next_u64().is_ok());
    let mut buf = [0u8; 16];
    assert!(rng.try_fill_bytes(&mut buf).is_ok());
}

#[test]
fn words_from_little_endian_bytes() {
    assert_eq!(u32_from_bytes([0x78, 0x56, 0x34, 0x12]), 0x1234_5678);
    assert_eq!(u32_from_bytes([0xff; 4]), u32::MAX);
    assert_eq!(u32_from_bytes([1, 0, 0, 0]), 1);
    assert_eq!(u64_from_bytes([1, 2, 3, 4, 5, 6, 7, 8]), 0x0807_0605_0403_0201);
    assert_eq!(u64_from_bytes([0xff; 8]), u64::MAX);
    assert_eq!(u64_from_bytes([0; 8]), 0);
}

#[test]
fn words_match_the_bytes_written() {
    let mut b4 = [0u8; 4];
    let v = u32_from_source(&mut b4).unwrap();
    assert_eq!(v, u32::from_le_bytes(b4));
    let mut b8 = [0u8; 8];
    let w = u64_from_source(&mut b8).unwrap();
    assert_eq!(w, u64::from_le_bytes(b8));
}
