use alla_morra::patches::getrandom_stub::{self, Error, UNEXPECTED_CODE, UNSUPPORTED_CODE};
use alla_morra::patches::wasi_stub::{random_get, Errno};
use alla_morra::patches::wasip2_stub::random::random::get_random_u64;
use core::mem::MaybeUninit;

#[test]
fn getrandom_refuses() {
    assert_eq!(getrandom_stub::u32().unwrap_err().code(), UNSUPPORTED_CODE);
    assert_eq!(getrandom_stub::u64().unwrap_err().code(), UNSUPPORTED_CODE);
    let mut buf = [MaybeUninit::<u8>::uninit(); 4];
    assert_eq!(getrandom_stub::fill(&mut buf).unwrap_err(), Error::unsupported());
    assert_eq!(Error::unexpected().code(), UNEXPECTED_CODE);
    assert_eq!(Error::unsupported().raw_os_error(), None);
}

#[test]
fn wasi_refuses() {
    let mut buf = [9u8; 3];
    assert_eq!(random_get(&mut buf), Err(Errno(1)));
    assert_eq!(buf, [9, 9, 9]);
    assert_eq!(Errno(7).raw(), 7);
}

#[test]
fn wasip2_gives_zero() {
    assert_eq!(get_random_u64(), 0);
}

#[test]
fn getrandom_error_message() {
    assert_eq!(Error::unsupported().message(), "getrandom error: 2147483649");
    assert_eq!(Error::unexpected().message(), "getrandom error: 2147483648");
}
