use dynamixel2::bus::bytestuff::{maximum_stuffed_len, stuff_inplace, stuffing_required, unstuff_inplace};

fn unstuff(mut data: Vec<u8>) -> Vec<u8> {
    let new_size: usize = unstuff_inplace(&mut data);
    data.resize(new_size, 0);
    data
}

fn stuff(mut data: Vec<u8>) -> Result<Vec<u8>, ()> {
    let used: usize = data.len();
    data.resize(maximum_stuffed_len(used), 0);
    let new_size: usize = stuff_inplace(&mut data, used)?;
    data.resize(new_size, 0);
    Ok(data)
}

#[test]
fn test_unstuff() {
    assert!(unstuff(vec![0, 0, 0]) == [0, 0, 0]);
    assert!(unstuff(vec![0xFF, 0xFF, 0xFD, 0x00]) == [0xFF, 0xFF, 0xFD, 0x00]);
    assert!(unstuff(vec![0xFF, 0xFF, 0xFD, 0xFD]) == [0xFF, 0xFF, 0xFD]);
    assert!(unstuff(vec![0xFF, 0xFF, 0x01, 0xFD, 0xFD]) == [0xFF, 0xFF, 0x01, 0xFD, 0xFD]);
    assert!(
        unstuff(vec![0x00, 0xFF, 0xFF, 0xFD, 0xFD, 0x01, 0xFF, 0xFF, 0xFD, 0xFD, 0x02, 0x03])
            == [0x00, 0xFF, 0xFF, 0xFD, 0x01, 0xFF, 0xFF, 0xFD, 0x02, 0x03]
    );
}

#[test]
fn test_stuff() {
    assert!(stuff(vec![0, 0, 0]).unwrap() == [0, 0, 0]);
    assert!(stuff(vec![0xFF, 0xFF, 0xFD, 0x00]).unwrap() == [0xFF, 0xFF, 0xFD, 0xFD, 0x00]);
    assert!(stuff(vec![0xFF, 0xFF, 0xFD, 0xFD]).unwrap() == [0xFF, 0xFF, 0xFD, 0xFD, 0xFD]);
    assert!(stuff(vec![0xFF, 0xFF, 0x01, 0xFD]).unwrap() == [0xFF, 0xFF, 0x01, 0xFD]);
    assert!(
        stuff(vec![0x00, 0xFF, 0xFF, 0xFD, 0x01, 0xFF, 0xFF, 0xFD, 0x02, 0x03]).unwrap()
            == [0x00, 0xFF, 0xFF, 0xFD, 0xFD, 0x01, 0xFF, 0xFF, 0xFD, 0xFD, 0x02, 0x03]
    );
    assert!(stuff(vec![0xFF, 0xFF, 0xFD, 0xFF, 0xFF, 0xFD]).unwrap() == [0xFF, 0xFF, 0xFD, 0xFD, 0xFF, 0xFF, 0xFD, 0xFD]);
    assert!(
        stuff(vec![0xFF, 0xFF, 0xFD, 0x00, 0xFF, 0xFF, 0xFD]).unwrap()
            == [0xFF, 0xFF, 0xFD, 0xFD, 0x00, 0xFF, 0xFF, 0xFD, 0xFD]
    );
}

#[test]
fn unstuffing_undoes_stuffing() {
    let inputs: Vec<Vec<u8>> = vec![
        vec![],
        vec![0xFF, 0xFF, 0xFD],
        vec![0xFF, 0xFF, 0xFD, 0xFD],
        vec![0x01, 0xFF, 0xFF, 0xFD, 0x00, 0xFF, 0xFF, 0xFD, 0xFD, 0x07],
        vec![0xFF, 0xFF, 0xFF, 0xFD, 0xFF, 0xFD],
    ];
    for input in inputs {
        let stuffed = stuff(input.clone()).unwrap();
        assert_eq!(unstuff(stuffed), input);
    }
}

#[test]
fn stuffed_data_holds_no_header_prefix() {
    let stuffed = stuff(vec![0xFF, 0xFF, 0xFD, 0x00, 0x12, 0xFF, 0xFF, 0xFD, 0x00]).unwrap();
    assert!(!stuffed.windows(4).any(|window| window == [0xFF, 0xFF, 0xFD, 0x00]));
    assert_eq!(stuffed, [0xFF, 0xFF, 0xFD, 0xFD, 0x00, 0x12, 0xFF, 0xFF, 0xFD, 0xFD, 0x00]);
}

#[test]
fn stuffing_counts_each_pattern() {
    assert_eq!(stuffing_required(&[0xFF, 0xFF, 0xFD, 0x01, 0xFF, 0xFF, 0xFD]), 2);
    assert_eq!(stuffing_required(&[0xFF, 0xFD, 0xFF]), 0);
    assert_eq!(maximum_stuffed_len(3), 4);
    assert_eq!(maximum_stuffed_len(7), 9);
}

#[test]
fn stuffing_fails_without_room() {
    let mut buffer = [0xFF, 0xFF, 0xFD];
    assert_eq!(stuff_inplace(&mut buffer, 3), Err(()));
    assert_eq!(buffer, [0xFF, 0xFF, 0xFD]);
}

#[test]
fn maximum_stuffed_len_is_reached() {
    let mut data = vec![0xFF, 0xFF, 0xFD, 0xFF, 0xFF, 0xFD, 0x00];
    let len = data.len();
    data.resize(dynamixel2::bus::bytestuff::maximum_stuffed_len(len), 0);
    let n = dynamixel2::bus::bytestuff::stuff_inplace(&mut data, len).unwrap();
    assert_eq!(n, dynamixel2::bus::bytestuff::maximum_stuffed_len(len));
    assert_eq!(n, 9);
}
