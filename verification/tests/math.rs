use amulet::math::LossyFrom;
use amulet::math::LossyInto;

#[test]
fn test_lossy_i32_u32() {
    assert_eq!(0u32, u32::lossy_from(0i32));
    let through: u32 = 0i32.lossy_into();
    assert_eq!(0u32, through);
    assert_eq!(10230u32, u32::lossy_from(10230i32));
    let through: u32 = 10230i32.lossy_into();
    assert_eq!(10230u32, through);
    assert_eq!(0u32, u32::lossy_from(-1i32));
    let through: u32 = (-1i32).lossy_into();
    assert_eq!(0u32, through);
    assert_eq!(0u32, u32::lossy_from(i32::MIN));
    let through: u32 = i32::MIN.lossy_into();
    assert_eq!(0u32, through);
    assert_eq!(2147483647u32, u32::lossy_from(i32::MAX));
    let through: u32 = i32::MAX.lossy_into();
    assert_eq!(2147483647u32, through);
}

#[test]
fn test_lossy_u32_i32() {
    assert_eq!(0i32, i32::lossy_from(0u32));
    let through: i32 = 0u32.lossy_into();
    assert_eq!(0i32, through);
    assert_eq!(10230i32, i32::lossy_from(10230u32));
    let through: i32 = 10230u32.lossy_into();
    assert_eq!(10230i32, through);
    assert_eq!(2147483647i32, i32::lossy_from(2147483647u32));
    let through: i32 = 2147483647u32.lossy_into();
    assert_eq!(2147483647i32, through);
    assert_eq!(2147483647i32, i32::lossy_from(2147483648u32));
    let through: i32 = 2147483648u32.lossy_into();
    assert_eq!(2147483647i32, through);
    assert_eq!(2147483647i32, i32::lossy_from(u32::MAX));
    let through: i32 = u32::MAX.lossy_into();
    assert_eq!(2147483647i32, through);
}
