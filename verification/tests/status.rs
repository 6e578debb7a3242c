use vape::status::{ParseStatusError, Status, STATUS_VARIANTS};

#[test]
fn try_from_accepts_each_code() {
    assert_eq!(Status::try_from(0), Ok(Status::NotFound));
    assert_eq!(Status::try_from(1), Ok(Status::Loading));
    assert_eq!(Status::try_from(2), Ok(Status::Loaded));
}

#[test]
fn try_from_rejects_out_of_domain_codes() {
    assert_eq!(Status::try_from(3), Err(ParseStatusError));
    assert_eq!(Status::try_from(99), Err(ParseStatusError));
    assert_eq!(Status::try_from(u32::MAX), Err(ParseStatusError));
}

#[test]
fn into_u32_is_the_inverse_of_try_from() {
    for code in 0..STATUS_VARIANTS {
        let status = Status::try_from(code).unwrap();
        assert_eq!(status.into_u32(), code);
    }
}

#[test]
fn advanced_steps_one_along_the_cycle() {
    assert_eq!(Status::NotFound.advanced(), Status::Loading);
    assert_eq!(Status::Loading.advanced(), Status::Loaded);
    assert_eq!(Status::Loaded.advanced(), Status::NotFound);
}

#[test]
fn advancing_three_times_returns_to_the_start() {
    for start in [Status::NotFound, Status::Loading, Status::Loaded] {
        assert_eq!(start.advanced().advanced().advanced(), start);
    }
}
