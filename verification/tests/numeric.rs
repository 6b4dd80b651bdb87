use proc_primer::numeric::{count_total_bytes, divide_by_7, incr, sum};

#[test]
fn sum_of_one_and_three_is_four() {
    assert_eq!(sum(1, 3), 4);
}

#[test]
fn sum_reaches_the_largest_value() {
    assert_eq!(sum(u128::MAX - 1, 1), u128::MAX);
    assert_eq!(sum(0, 0), 0);
}

#[test]
fn incr_adds_second_into_first() {
    let mut x = 3;
    let y = 5;
    incr(&mut x, &y);
    assert_eq!(x, 8);
    assert_eq!(y, 5);
}

#[test]
fn incr_by_two() {
    let mut val = 42;
    let step = 2;
    incr(&mut val, &step);
    assert_eq!(val, 44);
    assert_eq!(step, 2);
}

#[test]
fn incr_with_a_negative_step() {
    let mut val: isize = isize::MIN + 1;
    let step: isize = -1;
    incr(&mut val, &step);
    assert_eq!(val, isize::MIN);
}

#[test]
fn count_total_bytes_of_array_and_vector() {
    let byte_arr: [u8; 4] = [0xC, 0xA, 0xF, 0xE];

    let mut byte_vec = vec![0xB, 0xA, 0xD];
    byte_vec.push(0xF);
    byte_vec.push(0x0);
    byte_vec.push(0x0);
    byte_vec.push(0xD);

    assert_eq!(count_total_bytes(&byte_arr), 4);
    assert_eq!(count_total_bytes(&byte_vec), 7);
}

#[test]
fn count_total_bytes_of_nothing() {
    assert_eq!(count_total_bytes(&[]), 0);
}

#[test]
fn divide_by_7_of_twenty_eight() {
    assert_eq!(divide_by_7(28), 4);
}

#[test]
fn divide_by_7_of_zero() {
    assert_eq!(divide_by_7(0), 0);
}

#[test]
fn divide_by_7_rounds_towards_zero() {
    assert_eq!(divide_by_7(6), 0);
    assert_eq!(divide_by_7(7), 1);
    assert_eq!(divide_by_7(13), 1);
    assert_eq!(divide_by_7(-1), 0);
    assert_eq!(divide_by_7(-6), 0);
    assert_eq!(divide_by_7(-7), -1);
    assert_eq!(divide_by_7(-8), -1);
    assert_eq!(divide_by_7(-13), -1);
    assert_eq!(divide_by_7(-14), -2);
}

#[test]
fn divide_by_7_at_the_limits() {
    assert_eq!(divide_by_7(i32::MAX), 306_783_378);
    assert_eq!(divide_by_7(i32::MIN), -306_783_378);
}
