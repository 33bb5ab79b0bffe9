use visa::error::Error;
use visa::register::{
    ServiceRequestEnable, StandardEventStatusEnableRegister, StandardEventStatusRegister,
    StatusByteRegister,
};

#[test]
fn event_status_keeps_what_was_sent() {
    let register = StandardEventStatusRegister::try_from("133").unwrap();
    assert_eq!(register.value(), 133);
    assert_eq!(register.bits(), 133);
    assert!(register.operation_complete());
    assert!(!register.request_control());
    assert!(register.query_error());
    assert!(!register.device_specific_error());
    assert!(!register.execution_error());
    assert!(!register.command_error());
    assert!(!register.user_request());
    assert!(register.power_on());
}

#[test]
fn every_value_survives_every_register() {
    for value in 0..=255u8 {
        let text = value.to_string();
        assert_eq!(StandardEventStatusRegister::try_from(&text).unwrap().value(), value);
        assert_eq!(StandardEventStatusEnableRegister::try_from(&text).unwrap().value(), value);
        assert_eq!(StatusByteRegister::try_from(&text).unwrap().value(), value);
        assert_eq!(ServiceRequestEnable::try_from(&text).unwrap().value(), value);
        assert_eq!(StatusByteRegister::from_bits_retain(value).bits(), value);
    }
}

#[test]
fn unnamed_bits_are_kept() {
    let status = StatusByteRegister::try_from("7").unwrap();
    assert_eq!(status.value(), 7);
    assert!(!status.questionable_status_summary());
    assert!(!status.message_available());
    assert!(!status.event_status_bit());
    assert!(!status.request_service());
    assert!(!status.operation_status_summary());
    let enable = ServiceRequestEnable::try_from("64").unwrap();
    assert_eq!(enable.value(), 64);
    assert!(!enable.questionable_status());
    assert!(!enable.message_available());
    assert!(!enable.event_status());
    assert!(!enable.operation_status());
}

#[test]
fn responses_are_trimmed_before_they_are_read() {
    assert_eq!(StandardEventStatusRegister::try_from(" 32\r\n").unwrap().value(), 32);
    assert_eq!(StandardEventStatusEnableRegister::try_from("\t255 ").unwrap().value(), 255);
    assert_eq!(StatusByteRegister::try_from("+16\n").unwrap().value(), 16);
    assert_eq!(ServiceRequestEnable::try_from("000\n").unwrap().value(), 0);
}

#[test]
fn named_bits_stand_where_the_standard_puts_them() {
    for bit in 0..8u32 {
        let value = 1u8 << bit;
        let event = StandardEventStatusRegister::from_bits_retain(value);
        let named = [
            event.operation_complete(),
            event.request_control(),
            event.query_error(),
            event.device_specific_error(),
            event.execution_error(),
            event.command_error(),
            event.user_request(),
            event.power_on(),
        ];
        let enable = StandardEventStatusEnableRegister::from_bits_retain(value);
        let enabled = [
            enable.operation_complete(),
            enable.request_control(),
            enable.query_error(),
            enable.device_specific_error(),
            enable.execution_error(),
            enable.command_error(),
            enable.user_request(),
            enable.power_on(),
        ];
        for (at, set) in named.iter().enumerate() {
            assert_eq!(*set, at as u32 == bit);
        }
        for (at, set) in enabled.iter().enumerate() {
            assert_eq!(*set, at as u32 == bit);
        }
        let status = StatusByteRegister::from_bits_retain(value);
        assert_eq!(status.questionable_status_summary(), bit == 3);
        assert_eq!(status.message_available(), bit == 4);
        assert_eq!(status.event_status_bit(), bit == 5);
        assert_eq!(status.request_service(), bit == 6);
        assert_eq!(status.operation_status_summary(), bit == 7);
        let service = ServiceRequestEnable::from_bits_retain(value);
        assert_eq!(service.questionable_status(), bit == 3);
        assert_eq!(service.message_available(), bit == 4);
        assert_eq!(service.event_status(), bit == 5);
        assert_eq!(service.operation_status(), bit == 7);
    }
}

#[test]
fn masks_name_the_same_bits_as_the_accessors() {
    assert_eq!(StandardEventStatusRegister::OPERATION_COMPLETE, 1);
    assert_eq!(StandardEventStatusRegister::REQUEST_CONTROL, 2);
    assert_eq!(StandardEventStatusRegister::QUERY_ERROR, 4);
    assert_eq!(StandardEventStatusRegister::DEVICE_SPECIFIC_ERROR, 8);
    assert_eq!(StandardEventStatusRegister::EXECUTION_ERROR, 16);
    assert_eq!(StandardEventStatusRegister::COMMAND_ERROR, 32);
    assert_eq!(StandardEventStatusRegister::USER_REQUEST, 64);
    assert_eq!(StandardEventStatusRegister::POWER_ON, 128);
    assert_eq!(StandardEventStatusEnableRegister::POWER_ON, 128);
    assert_eq!(StatusByteRegister::QUESTIONABLE_STATUS_SUMMARY, 8);
    assert_eq!(StatusByteRegister::MESSAGE_AVAILABLE, 16);
    assert_eq!(StatusByteRegister::EVENT_STATUS_BIT, 32);
    assert_eq!(StatusByteRegister::REQUEST_SERVICE, 64);
    assert_eq!(StatusByteRegister::OPERATION_STATUS_SUMMARY, 128);
    assert_eq!(ServiceRequestEnable::QUESTIONABLE_STATUS, 8);
    assert_eq!(ServiceRequestEnable::MESSAGE_AVAILABLE, 16);
    assert_eq!(ServiceRequestEnable::EVENT_STATUS, 32);
    assert_eq!(ServiceRequestEnable::OPERATION_STATUS, 128);
    let register = StandardEventStatusRegister::from_bits_retain(0b1010_0001);
    assert!(register.contains(StandardEventStatusRegister::POWER_ON));
    assert!(register.contains(
        StandardEventStatusRegister::POWER_ON | StandardEventStatusRegister::OPERATION_COMPLETE
    ));
    assert!(!register.contains(StandardEventStatusRegister::QUERY_ERROR));
    assert!(!register.contains(
        StandardEventStatusRegister::POWER_ON | StandardEventStatusRegister::QUERY_ERROR
    ));
    assert!(register.contains(0));
}

#[test]
fn each_register_has_its_own_parse_error() {
    assert_eq!(
        StandardEventStatusRegister::try_from("abc"),
        Err(Error::StandardEventStatusRegisterParse("abc".to_string()))
    );
    assert_eq!(
        StandardEventStatusEnableRegister::try_from("abc"),
        Err(Error::StandardEventStatusEnableRegisterParse("abc".to_string()))
    );
    assert_eq!(
        StatusByteRegister::try_from("abc"),
        Err(Error::StatusByteRegisterQueryParse("abc".to_string()))
    );
    assert_eq!(
        ServiceRequestEnable::try_from("abc"),
        Err(Error::ServiceRequestEnableQueryParse("abc".to_string()))
    );
}

#[test]
fn what_is_no_byte_in_decimal_is_refused_as_it_came() {
    for text in ["", " ", "256", "-1", "1.5", "0x10", "12 3", "1,2", "+", "one", " 300\n"] {
        assert_eq!(
            StandardEventStatusRegister::try_from(text),
            Err(Error::StandardEventStatusRegisterParse(text.to_string()))
        );
        assert_eq!(
            StatusByteRegister::try_from(text),
            Err(Error::StatusByteRegisterQueryParse(text.to_string()))
        );
    }
}
