use visa::error::Error;
use visa::resource_manager::{Find, FindRequest, OpenRequest, ResourceManager, VI_FIND_BUFLEN};
use visa::utility::{AccessMode, Timeout};

const SUCCESS: i32 = 0;
const DEVICE_NOT_PRESENT: i32 = 0x3FFF007D;
const RESOURCE_NOT_FOUND: i32 = -1073807343;
const ALLOCATION: i32 = -1073807300;

fn description(name: &str) -> Vec<u8> {
    let mut buffer = vec![0u8; VI_FIND_BUFLEN];
    buffer[..name.len()].copy_from_slice(name.as_bytes());
    buffer
}

/// A transport that reports a number of matches and counts how often the next
/// description is fetched from it.
struct Matches {
    names: Vec<String>,
    reported: u32,
    fetched: usize,
}

fn find_with(transport: &mut Matches, expression: &str) -> Find {
    let manager = ResourceManager::new(SUCCESS, 1).unwrap();
    let request = manager.find_resources(expression).unwrap();
    let first = match transport.names.first() {
        Some(name) => description(name),
        None => vec![0xAA; VI_FIND_BUFLEN],
    };
    let mut state = request.found(SUCCESS, 99, transport.reported, &first);
    while !state.is_finished() {
        transport.fetched += 1;
        let name = transport.names[transport.fetched].clone();
        state = state.next(SUCCESS, &description(&name));
    }
    state
}

#[test]
fn the_manager_is_what_the_transport_opened() {
    assert_eq!(ResourceManager::new(SUCCESS, 17).unwrap().handle(), 17);
    assert_eq!(ResourceManager::new(0x3FFF0077, 18).unwrap().handle(), 18);
}

#[test]
fn the_manager_fails_with_the_transport() {
    assert_eq!(ResourceManager::new(ALLOCATION, 0), Err(Error::Allocation));
    assert_eq!(ResourceManager::new(-1073807360, 0), Err(Error::System));
    assert_eq!(ResourceManager::new(-7, 0), Err(Error::InvalidErrorCode(-7)));
    assert_eq!(ResourceManager::new(5, 0), Err(Error::InvalidCompletionCode(5)));
}

#[test]
fn a_session_is_opened_with_the_wire_values() {
    let manager = ResourceManager::new(SUCCESS, 17).unwrap();
    let request = manager
        .open_session(
            "GPIB0::1::INSTR",
            AccessMode::Shared,
            Timeout::Custom(std::time::Duration::from_millis(2500)),
        )
        .unwrap();
    assert_eq!(
        request,
        OpenRequest {
            manager: 17,
            resource_name: b"GPIB0::1::INSTR\0".to_vec(),
            access_mode: 2,
            timeout: 2500,
        }
    );
    let request = manager.open_session("", AccessMode::NoLock, Timeout::Infinite).unwrap();
    assert_eq!(
        request,
        OpenRequest { manager: 17, resource_name: vec![0], access_mode: 0, timeout: 0xFFFFFFFF }
    );
}

#[test]
fn a_name_with_a_zero_byte_is_refused() {
    let manager = ResourceManager::new(SUCCESS, 17).unwrap();
    assert_eq!(
        manager.open_session("GPIB0\0::1", AccessMode::Exclusive, Timeout::Immediate),
        Err(Error::InvalidResourceName)
    );
    assert_eq!(
        manager.open_session("\0", AccessMode::Exclusive, Timeout::Immediate),
        Err(Error::InvalidResourceName)
    );
}

#[test]
fn the_name_is_looked_at_before_the_timeout() {
    let manager = ResourceManager::new(SUCCESS, 17).unwrap();
    let long = std::time::Duration::from_secs(10_000_000);
    assert_eq!(
        manager.open_session("a\0", AccessMode::Exclusive, Timeout::Custom(long)),
        Err(Error::InvalidResourceName)
    );
    assert_eq!(
        manager.open_session("a", AccessMode::Exclusive, Timeout::Custom(long)),
        Err(Error::InvalidTimeout(long))
    );
}

#[test]
fn an_opened_session_has_the_handle_of_the_transport() {
    let manager = ResourceManager::new(SUCCESS, 17).unwrap();
    let request = manager.open_session("x", AccessMode::Exclusive, Timeout::Immediate).unwrap();
    assert_eq!(request.complete(SUCCESS, 23).unwrap().handle(), 23);
    assert_eq!(request.complete(RESOURCE_NOT_FOUND, 0), Err(Error::ResourceNotFound));
    assert_eq!(request.complete(-1073807345, 0), Err(Error::ResourceLocked));
}

#[test]
fn a_warning_still_opens_the_session() {
    let manager = ResourceManager::new(SUCCESS, 17).unwrap();
    let request = manager.open_session("x", AccessMode::Exclusive, Timeout::Immediate).unwrap();
    assert_eq!(request.complete(DEVICE_NOT_PRESENT, 24).unwrap().handle(), 24);
    assert_eq!(request.complete(0x3FFF0077, 25).unwrap().handle(), 25);
}

#[test]
fn the_expression_goes_to_the_transport_as_it_is() {
    let manager = ResourceManager::new(SUCCESS, 17).unwrap();
    assert_eq!(
        manager.find_resources("?*INSTR"),
        Ok(FindRequest { manager: 17, expression: b"?*INSTR\0".to_vec() })
    );
    assert_eq!(
        manager.find_resources("(GPIB|USB)[0-9]+::?*"),
        Ok(FindRequest { manager: 17, expression: b"(GPIB|USB)[0-9]+::?*\0".to_vec() })
    );
    assert_eq!(manager.find_resources("?*\0INSTR"), Err(Error::InvalidNullString));
}

#[test]
fn no_match_is_an_empty_list_and_nothing_is_fetched() {
    let mut transport = Matches { names: vec![], reported: 0, fetched: 0 };
    let state = find_with(&mut transport, "?*INSTR");
    assert_eq!(state, Find::Done(vec![]));
    assert_eq!(transport.fetched, 0);
}

#[test]
fn three_matches_are_fetched_with_two_more_calls() {
    let names = vec![
        "GPIB0::1::INSTR".to_string(),
        "USB0::0x1234::0x5678::SN001::INSTR".to_string(),
        "TCPIP0::10.0.0.2::inst0::INSTR".to_string(),
    ];
    let mut transport = Matches { names: names.clone(), reported: 3, fetched: 0 };
    let state = find_with(&mut transport, "?*INSTR");
    assert_eq!(state, Find::Done(names));
    assert_eq!(transport.fetched, 2);
}

#[test]
fn one_match_needs_no_further_call() {
    let mut transport = Matches { names: vec!["ASRL1::INSTR".to_string()], reported: 1, fetched: 0 };
    let state = find_with(&mut transport, "ASRL?*");
    assert_eq!(state, Find::Done(vec!["ASRL1::INSTR".to_string()]));
    assert_eq!(transport.fetched, 0);
}

#[test]
fn every_count_fetches_one_less() {
    for count in 1..20u32 {
        let names: Vec<String> = (0..count).map(|i| format!("GPIB0::{}::INSTR", i)).collect();
        let mut transport = Matches { names: names.clone(), reported: count, fetched: 0 };
        let state = find_with(&mut transport, "?*");
        assert_eq!(state, Find::Done(names));
        assert_eq!(transport.fetched as u32, count - 1);
    }
}

#[test]
fn the_search_says_what_remains() {
    let request = ResourceManager::new(SUCCESS, 1).unwrap().find_resources("?*").unwrap();
    let state = request.found(SUCCESS, 99, 3, &description("a"));
    assert_eq!(
        state,
        Find::Finding { list: 99, remaining: 2, resources: vec!["a".to_string()] }
    );
    let state = state.next(SUCCESS, &description("b"));
    assert_eq!(
        state,
        Find::Finding { list: 99, remaining: 1, resources: vec!["a".to_string(), "b".to_string()] }
    );
    assert!(!state.is_finished());
    let state = state.next(SUCCESS, &description("c"));
    assert_eq!(state, Find::Done(vec!["a".to_string(), "b".to_string(), "c".to_string()]));
    assert!(state.is_finished());
    let state = state.next(SUCCESS, &description("d"));
    assert_eq!(state, Find::Done(vec!["a".to_string(), "b".to_string(), "c".to_string()]));
}

#[test]
fn a_failing_search_fails() {
    let request = ResourceManager::new(SUCCESS, 1).unwrap().find_resources("?*").unwrap();
    assert_eq!(
        request.found(RESOURCE_NOT_FOUND, 0, 0, &description("")),
        Find::Failed(Error::ResourceNotFound)
    );
    assert_eq!(
        request.found(-1073807344, 0, 3, &description("a")),
        Find::Failed(Error::InvalidExpression)
    );
    let state = request.found(SUCCESS, 99, 3, &description("a")).next(RESOURCE_NOT_FOUND, &[]);
    assert_eq!(state, Find::Failed(Error::ResourceNotFound));
    let state = state.next(SUCCESS, &description("b"));
    assert_eq!(state, Find::Failed(Error::ResourceNotFound));
}

#[test]
fn a_description_without_its_end_fails_the_search() {
    let request = ResourceManager::new(SUCCESS, 1).unwrap().find_resources("?*").unwrap();
    let full = vec![b'x'; VI_FIND_BUFLEN];
    assert_eq!(request.found(SUCCESS, 99, 1, &full), Find::Failed(Error::InvalidNullString));
    assert_eq!(request.found(SUCCESS, 99, 0, &full), Find::Done(vec![]));
    let state = request.found(SUCCESS, 99, 2, &description("a")).next(SUCCESS, &full);
    assert_eq!(state, Find::Failed(Error::InvalidNullString));
}
