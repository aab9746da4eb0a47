use sandbox::channel::{decode, encode, Reading, SetupFailure, MESSAGE_LEN};

#[test]
fn nothing_read_means_the_program_started() {
    assert_eq!(decode(&[]), Reading::Started);
}

#[test]
fn message_holds_the_step_and_the_error_number() {
    assert_eq!(encode(SetupFailure { step: 3, errno: 13 }), [3, 13, 0, 0, 0]);
    assert_eq!(encode(SetupFailure { step: 0, errno: 0 }), [0, 0, 0, 0, 0]);
    assert_eq!(
        encode(SetupFailure { step: 12, errno: 0x0102_0304 }),
        [12, 0x04, 0x03, 0x02, 0x01]
    );
    assert_eq!(
        encode(SetupFailure { step: 255, errno: u32::MAX }),
        [255, 255, 255, 255, 255]
    );
}

#[test]
fn message_is_read_as_a_failure() {
    assert_eq!(
        decode(&[3, 13, 0, 0, 0]),
        Reading::Failed(SetupFailure { step: 3, errno: 13 })
    );
    assert_eq!(
        decode(&[12, 0x04, 0x03, 0x02, 0x01]),
        Reading::Failed(SetupFailure { step: 12, errno: 0x0102_0304 })
    );
    assert_eq!(
        decode(&[255; 5]),
        Reading::Failed(SetupFailure { step: 255, errno: u32::MAX })
    );
}

#[test]
fn bytes_of_another_length_are_no_message() {
    assert_eq!(decode(&[1]), Reading::Malformed);
    assert_eq!(decode(&[1, 2, 3, 4]), Reading::Malformed);
    assert_eq!(decode(&[1, 2, 3, 4, 5, 6]), Reading::Malformed);
    assert_eq!(decode(&[0; 10]), Reading::Malformed);
}

#[test]
fn message_has_a_fixed_length() {
    assert_eq!(MESSAGE_LEN, 5);
    assert_eq!(encode(SetupFailure { step: 1, errno: 1 }).len(), MESSAGE_LEN);
}

#[test]
fn what_is_written_is_read_back() {
    for step in [0u8, 1, 7, 12, 200, 255] {
        for errno in [0u32, 1, 2, 13, 255, 256, 65_535, 65_536, 16_777_216, u32::MAX] {
            let failure = SetupFailure { step, errno };
            assert_eq!(decode(&encode(failure)), Reading::Failed(failure));
        }
    }
}
