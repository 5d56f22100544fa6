use r_efi_alloc::pool::released;
use r_efi_alloc::pool::PoolReply;
use r_efi::efi::Status;

fn granted(status: usize, address: usize) -> bool {
    PoolReply { status, address }.granted()
}

#[test]
fn success_with_an_address_is_granted() {
    assert!(granted(Status::SUCCESS.as_usize(), 0x1000));
    assert!(granted(0, 8));
    assert!(granted(0, usize::MAX));
}

#[test]
fn success_with_null_is_not_granted() {
    assert!(!granted(Status::SUCCESS.as_usize(), 0));
    assert!(!granted(Status::WARN_STALE_DATA.as_usize(), 0));
}

#[test]
fn an_error_is_not_granted() {
    assert!(!granted(Status::OUT_OF_RESOURCES.as_usize(), 0x1000));
    assert!(!granted(Status::OUT_OF_RESOURCES.as_usize(), 0));
    assert!(!granted(Status::INVALID_PARAMETER.as_usize(), 0x1000));
    assert!(!granted(Status::LOAD_ERROR.as_usize(), 0x1000));
}

#[test]
fn a_warning_is_granted() {
    assert!(granted(Status::WARN_UNKNOWN_GLYPH.as_usize(), 0x1000));
    assert!(granted(Status::WARN_RESET_REQUIRED.as_usize(), 0x1000));
}

#[test]
fn error_codes_are_those_with_the_highest_bits_one_and_zero() {
    let top = 1usize << (usize::BITS - 1);
    let below = 1usize << (usize::BITS - 2);
    assert!(released(0));
    assert!(released(1));
    assert!(released(top - 1));
    assert!(!released(top));
    assert!(!released(top + 1));
    assert!(!released(top + below - 1));
    assert!(released(top + below));
    assert!(released(usize::MAX));
    assert!(released(below));
}

#[test]
fn released_agrees_with_the_status() {
    let top = 1usize << (usize::BITS - 1);
    let below = 1usize << (usize::BITS - 2);
    for code in [0, 1, 2, 9, below - 1, below, below + 9, top - 1, top, top | 2, top | 9, top + below - 1, top + below, usize::MAX - 1, usize::MAX] {
        assert_eq!(released(code), !Status::from_usize(code).is_error());
        assert_eq!(granted(code, 0x40), !Status::from_usize(code).is_error());
    }
}

#[test]
fn free_pool_errors_are_not_released() {
    assert!(released(Status::SUCCESS.as_usize()));
    assert!(!released(Status::INVALID_PARAMETER.as_usize()));
    assert!(!released(Status::NOT_FOUND.as_usize()));
}
