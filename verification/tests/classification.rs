use visa::error::{CompletionCode, Error};

fn fatal_table() -> Vec<(i32, Error)> {
    vec![
        (-1073807360, Error::System),
        (-1073807346, Error::InvalidObject),
        (-1073807345, Error::ResourceLocked),
        (-1073807344, Error::InvalidExpression),
        (-1073807343, Error::ResourceNotFound),
        (-1073807342, Error::InvalidResourceName),
        (-1073807341, Error::InvalidAccessMode),
        (-1073807339, Error::Timeout),
        (-1073807338, Error::ClosingFailed),
        (-1073807333, Error::InvalidDegree),
        (-1073807332, Error::InvalidJobId),
        (-1073807331, Error::AttributeNotSupported),
        (-1073807330, Error::AttributeStateNotSupported),
        (-1073807329, Error::AttibuteReadOnly),
        (-1073807328, Error::InvalidLockType),
        (-1073807327, Error::InvalidAccessKey),
        (-1073807322, Error::InvalidEvent),
        (-1073807321, Error::InvalidMechanism),
        (-1073807320, Error::HandlerNotInstalled),
        (-1073807319, Error::InvalidHandlerReference),
        (-1073807318, Error::InvalidContext),
        (-1073807315, Error::QueueOverflow),
        (-1073807313, Error::NotEnabled),
        (-1073807312, Error::Abort),
        (-1073807308, Error::RawWriteProtocolViolation),
        (-1073807307, Error::RawReadProtocolViolation),
        (-1073807306, Error::OutputProtocolViolation),
        (-1073807305, Error::InputProtocolViolation),
        (-1073807304, Error::Bus),
        (-1073807303, Error::InProgress),
        (-1073807302, Error::InvalidSetup),
        (-1073807301, Error::Queue),
        (-1073807300, Error::Allocation),
        (-1073807299, Error::InvalidMask),
        (-1073807298, Error::Io),
        (-1073807297, Error::InvalidFormat),
        (-1073807295, Error::FormatNotSupported),
        (-1073807294, Error::TriggerLineInUse),
        (-1073807290, Error::ModeNotSupported),
        (-1073807286, Error::ServiceRequestNotReceived),
        (-1073807282, Error::InvalidAddressSpace),
        (-1073807279, Error::InvalidOffset),
        (-1073807278, Error::InvalidWidth),
        (-1073807276, Error::OffsetNotAccessible),
        (-1073807275, Error::VariableWidthNotSupported),
        (-1073807273, Error::SessionNotMapped),
        (-1073807271, Error::ResponsePending),
        (-1073807265, Error::NoListeners),
        (-1073807264, Error::NotControllerInCharge),
        (-1073807263, Error::NotSystemController),
        (-1073807257, Error::OperationNotSupported),
        (-1073807256, Error::InterruptPending),
        (-1073807254, Error::AsrlParity),
        (-1073807253, Error::AsrlFraming),
        (-1073807252, Error::AsrlOverrun),
        (-1073807250, Error::TriggerNotMapped),
        (-1073807248, Error::OffsetNotAligned),
        (-1073807247, Error::UserBuffer),
        (-1073807246, Error::ResourceBusy),
        (-1073807242, Error::WidthNotSupported),
        (-1073807240, Error::InvalidParameter),
        (-1073807239, Error::InvalidProtocol),
        (-1073807237, Error::InvalidSize),
        (-1073807232, Error::WindowMapped),
        (-1073807231, Error::OperationNotImplemented),
        (-1073807229, Error::InvalidLength),
        (-1073807215, Error::InvalidMode),
        (-1073807204, Error::SessionNotLocked),
        (-1073807203, Error::MemoryNotShared),
        (-1073807202, Error::LibraryNotFound),
        (-1073807201, Error::InterruptNotSupported),
        (-1073807200, Error::InvalidLine),
        (-1073807199, Error::FileAccess),
        (-1073807198, Error::FileIo),
        (-1073807197, Error::LineNotSupported),
        (-1073807196, Error::MechanismNotSupported),
        (-1073807195, Error::InterfaceNumberNotConfigured),
        (-1073807194, Error::ConnectionLost),
        (-1073807193, Error::MachineNotAvailable),
        (-1073807192, Error::NoPermission),
    ]
}

fn completion_table() -> Vec<(i32, CompletionCode)> {
    vec![
        (0, CompletionCode::Success),
        (1073676290, CompletionCode::EventEnabled),
        (1073676291, CompletionCode::EventDisabled),
        (1073676292, CompletionCode::QueueEmpty),
        (1073676293, CompletionCode::TerminationCharacterRead),
        (1073676294, CompletionCode::MaximumCount),
        (1073676413, CompletionCode::DeviceNotPresent),
        (1073676414, CompletionCode::TrigPathMapped),
        (1073676416, CompletionCode::QueueNotEmpty),
        (1073676440, CompletionCode::DoNotInvokeHandler),
        (1073676441, CompletionCode::NestedSharedLock),
        (1073676442, CompletionCode::NestedExclusiveLock),
        (1073676443, CompletionCode::AsynchronousOperationHandledSynchronously),
        (1073676300, CompletionCode::QueueOverflow),
        (1073676407, CompletionCode::ConfigurationNotLoaded),
        (1073676418, CompletionCode::NullObject),
        (1073676420, CompletionCode::AttributeStateNotSupported),
        (1073676421, CompletionCode::UnknownStatus),
        (1073676424, CompletionCode::BufferNotSupported),
        (1073676457, CompletionCode::ExtendedFunctionNotImplemented),
    ]
}

#[test]
fn every_fatal_status_gives_its_error() {
    let table = fatal_table();
    assert_eq!(table.len(), 80);
    for (status, error) in table {
        assert!(status < 0);
        assert_eq!(CompletionCode::try_from(status), Err(error));
    }
}

#[test]
fn every_completion_status_gives_its_code() {
    let table = completion_table();
    assert_eq!(table.len(), 20);
    for (status, code) in table {
        assert!(status >= 0);
        assert_eq!(CompletionCode::try_from(status), Ok(code));
    }
}

#[test]
fn fatal_statuses_are_mapped_one_to_one() {
    let table = fatal_table();
    for (i, (status_a, error_a)) in table.iter().enumerate() {
        for (status_b, error_b) in table.iter().skip(i + 1) {
            assert_ne!(status_a, status_b);
            assert_ne!(error_a, error_b);
        }
    }
}

#[test]
fn completion_statuses_are_mapped_one_to_one() {
    let table = completion_table();
    for (i, (status_a, code_a)) in table.iter().enumerate() {
        for (status_b, code_b) in table.iter().skip(i + 1) {
            assert_ne!(status_a, status_b);
            assert_ne!(code_a, code_b);
        }
    }
}

#[test]
fn known_statuses_have_their_standard_values() {
    assert_eq!(CompletionCode::try_from(0), Ok(CompletionCode::Success));
    assert_eq!(CompletionCode::try_from(0x3FFF0005), Ok(CompletionCode::TerminationCharacterRead));
    assert_eq!(CompletionCode::try_from(0x3FFF0006), Ok(CompletionCode::MaximumCount));
    assert_eq!(CompletionCode::try_from(0x3FFF000C), Ok(CompletionCode::QueueOverflow));
    assert_eq!(CompletionCode::try_from(0xBFFF0015u32 as i32), Err(Error::Timeout));
    assert_eq!(CompletionCode::try_from(0xBFFF0000u32 as i32), Err(Error::System));
    assert_eq!(CompletionCode::try_from(0xBFFF0011u32 as i32), Err(Error::ResourceNotFound));
    assert_eq!(CompletionCode::try_from(0xBFFF0030u32 as i32), Err(Error::Abort));
    assert_eq!(CompletionCode::try_from(0xBFFF00A8u32 as i32), Err(Error::NoPermission));
    assert_eq!(visa::error::VI_ERROR_TMO, -1073807339);
    assert_eq!(visa::error::VI_SUCCESS_MAX_CNT, 1073676294);
}

#[test]
fn undefined_negative_status_keeps_its_value() {
    let fatal: Vec<i32> = fatal_table().into_iter().map(|(status, _)| status).collect();
    for status in [-1, -2, i32::MIN, i32::MIN + 1, -1073807361, -1073807359, -1073807293, -1073807191] {
        assert!(!fatal.contains(&status));
        assert_eq!(CompletionCode::try_from(status), Err(Error::InvalidErrorCode(status)));
    }
}

#[test]
fn every_status_near_the_fatal_table_is_classified() {
    let table = fatal_table();
    for status in -1073807370..-1073807180 {
        let expected = match table.iter().find(|(known, _)| *known == status) {
            Some((_, error)) => CompletionCode::try_from(status) == Err(error.clone()),
            None => CompletionCode::try_from(status) == Err(Error::InvalidErrorCode(status)),
        };
        assert!(expected, "status {}", status);
    }
}

#[test]
fn undefined_completion_status_keeps_its_value() {
    let known: Vec<i32> = completion_table().into_iter().map(|(status, _)| status).collect();
    for status in [1, 2, 0x3FFF0000, 0x3FFF0001, 0x3FFF0007, 0x3FFF00AA, i32::MAX] {
        assert!(!known.contains(&status));
        assert_eq!(
            CompletionCode::try_from(status),
            Err(Error::InvalidCompletionCode(status as u32))
        );
    }
}

#[test]
fn every_status_near_the_completion_table_is_classified() {
    let table = completion_table();
    for status in 0x3FFF0000..0x3FFF00B0 {
        match table.iter().find(|(known, _)| *known == status) {
            Some((_, code)) => assert_eq!(CompletionCode::try_from(status), Ok(*code)),
            None => assert_eq!(
                CompletionCode::try_from(status),
                Err(Error::InvalidCompletionCode(status as u32))
            ),
        }
    }
}

#[test]
fn completion_codes_describe_themselves() {
    assert_eq!(CompletionCode::Success.to_string(), "Operation completed successfully.");
    assert_eq!(
        CompletionCode::TerminationCharacterRead.to_string(),
        "The specified termination character was read."
    );
    assert_eq!(
        CompletionCode::MaximumCount.to_string(),
        "The number of bytes read is equal to the input count."
    );
    assert_eq!(CompletionCode::NullObject.to_string(), "The specified object reference is uninitialized.");
    assert_eq!(
        CompletionCode::ExtendedFunctionNotImplemented.to_string(),
        "The operation succeeded, but a lower level driver did not implement the extended functionality."
    );
    for (_, code) in completion_table() {
        assert!(code.to_string().ends_with('.'));
    }
}

#[test]
fn fatal_errors_describe_themselves() {
    assert_eq!(Error::System.to_string(), "Unknown system error (miscellaneous error).");
    assert_eq!(Error::Timeout.to_string(), "Timeout expired before operation completed.");
    assert_eq!(Error::Abort.to_string(), "The operation was aborted.");
    assert_eq!(
        Error::InvalidParameter.to_string(),
        "The value of some parameter\u{2014}which parameter is not known\u{2014}is invalid."
    );
    assert_eq!(Error::InvalidUtf8.to_string(), "The buffer contains invalid UTF-8 characters.");
    assert_eq!(Error::InvalidNullString.to_string(), "The string is not null terminated.");
    for (_, error) in fatal_table() {
        assert!(error.to_string().ends_with('.'));
    }
}

#[test]
fn errors_embed_what_they_carry() {
    assert_eq!(
        Error::InvalidErrorCode(-5).to_string(),
        "Invalid error code supplied from VISA: -5."
    );
    assert_eq!(
        Error::InvalidErrorCode(i32::MIN).to_string(),
        "Invalid error code supplied from VISA: -2147483648."
    );
    assert_eq!(
        Error::InvalidCompletionCode(4294967295).to_string(),
        "Invalid completion code supplied from VISA: 4294967295."
    );
    assert_eq!(
        Error::WriteLengthMismatch { length: 3, expected: 5 }.to_string(),
        "Write command wrote 3 bytes instead of 5."
    );
    assert_eq!(
        Error::IdentityParse("A,B,C".to_string()).to_string(),
        "Invalid identity, the parsed string had more than 4 fields: A,B,C."
    );
    assert_eq!(
        Error::StandardEventStatusRegisterParse("x".to_string()).to_string(),
        "Invalid Standard Event Status Register (SESR) response: x."
    );
    assert_eq!(
        Error::StandardEventStatusEnableRegisterParse("x".to_string()).to_string(),
        "Invalid Standard Event Status Enable Register (SESER) response : x."
    );
    assert_eq!(
        Error::OperationCompleteQueryParse("2".to_string()).to_string(),
        "Invalid Operation Complete (*OPC?) response: 2."
    );
    assert_eq!(
        Error::StatusByteRegisterQueryParse("".to_string()).to_string(),
        "Invalid Status Byte Register (*STB?) response: ."
    );
    assert_eq!(
        Error::SelfTestParse("-1".to_string()).to_string(),
        "Invalid Self Test (*TST?) response: -1."
    );
    assert_eq!(
        Error::ServiceRequestEnableQueryParse("256".to_string()).to_string(),
        "Invalid Service Request Enable (*SRE?) response: 256."
    );
    assert_eq!(
        Error::UnexpectedCompletionCode(CompletionCode::QueueEmpty).to_string(),
        "Unexpected completion code: Operation completed successfully, but queue was already empty."
    );
    assert_eq!(
        Error::InvalidTimeout(std::time::Duration::from_secs(5_000_000)).to_string(),
        "Invalid timeout value: 5000000000ms."
    );
    assert_eq!(
        Error::InvalidTimeout(std::time::Duration::from_millis(4294967296)).to_string(),
        "Invalid timeout value: 4294967296ms."
    );
    assert_eq!(
        Error::InvalidTimeout(std::time::Duration::MAX).to_string(),
        "Invalid timeout value: 18446744073709551615999ms."
    );
}

