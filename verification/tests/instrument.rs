use visa::instrument::{Error, Instrument, MANUFACTURER, MODEL};
use visa::resource_manager::{Find, OpenRequest, ResourceManager};
use visa::session::{Query, Read, Session};
use visa::utility::{Identification, MandatoryCommands};

fn identification(manufacturer: &str, model: &str, serial: &str) -> Identification {
    Identification {
        manufacturer: manufacturer.to_string(),
        model: model.to_string(),
        serial: serial.to_string(),
        firmware: "1.0".to_string(),
    }
}

#[test]
fn an_instrument_is_opened_for_itself_alone() {
    let manager = ResourceManager::new(0, 2).unwrap();
    assert_eq!(
        Instrument::open(&manager, "GPIB0::1::INSTR"),
        Ok(OpenRequest {
            manager: 2,
            resource_name: b"GPIB0::1::INSTR\0".to_vec(),
            access_mode: 1,
            timeout: 0,
        })
    );
    assert_eq!(
        Instrument::open(&manager, "GPIB0\0"),
        Err(Error::Visa(visa::error::Error::InvalidResourceName))
    );
}

#[test]
fn the_make_and_model_must_be_the_right_ones() {
    let right = identification(MANUFACTURER, MODEL, "1234");
    assert!(Instrument::from_resource(Session::new(5), &right).is_ok());
    let other_make = identification("ACME", MODEL, "1234");
    assert_eq!(
        Instrument::from_resource(Session::new(5), &other_make),
        Err(Error::InstrumentNotFound)
    );
    let other_model = identification(MANUFACTURER, "Model5", "1234");
    assert_eq!(
        Instrument::from_resource(Session::new(5), &other_model),
        Err(Error::InstrumentNotFound)
    );
}

#[test]
fn the_serial_number_must_be_the_one_asked_for() {
    let right = identification(MANUFACTURER, MODEL, "1234");
    let instrument = Instrument::from_serial(Session::new(5), &right, "1234").unwrap();
    assert_eq!(instrument.as_session().handle(), 5);
    assert_eq!(
        Instrument::from_serial(Session::new(5), &right, "4321"),
        Err(Error::InstrumentNotFound)
    );
    assert_eq!(
        Instrument::from_serial(Session::new(5), &right, "12345"),
        Err(Error::InstrumentNotFound)
    );
    let other = identification("ACME", MODEL, "1234");
    assert_eq!(
        Instrument::from_serial(Session::new(5), &other, "1234"),
        Err(Error::InstrumentNotFound)
    );
}

/// An instrument on a bus that answers every query at once, in chunks of four bytes.
struct Bench {
    serial: String,
}

impl Bench {
    fn answer(&self, command: &[u8]) -> String {
        match command {
            b"*IDN?\n" => format!("{},{},{},1.2.3\n", MANUFACTURER, MODEL, self.serial),
            b"*ESE?\n" => "32\n".to_string(),
            b"*ESR?\n" => "133\n".to_string(),
            b"*OPC?\n" => "1\n".to_string(),
            b"*SRE?\n" => "16\n".to_string(),
            b"*STB?\n" => "64\n".to_string(),
            b"*TST?\n" => "0\n".to_string(),
            _ => String::new(),
        }
    }

    fn run(&self, query: Query) -> Result<String, visa::error::Error> {
        let command = match &query {
            Query::Writing(request) => request.bytes.clone(),
            Query::Reading(_) => unreachable!(),
        };
        let answer = self.answer(&command).into_bytes();
        let mut query = query.written(0, command.len() as u32);
        let mut at = 0;
        loop {
            match query {
                Query::Reading(Read::Done(text)) => return Ok(text),
                Query::Reading(Read::Failed(error)) => return Err(error),
                Query::Reading(Read::Reading { .. }) => {
                    let end = (at + 4).min(answer.len());
                    let status = if end == answer.len() { 0x3FFF0005 } else { 0x3FFF0006 };
                    query = query.received(status, &answer[at..end]);
                    at = end;
                }
                Query::Writing(_) => unreachable!(),
            }
        }
    }
}

fn buffer(name: &str) -> Vec<u8> {
    let mut bytes = name.as_bytes().to_vec();
    bytes.resize(256, 0);
    bytes
}

#[test]
fn main() {
    let bench = Bench { serial: "1234".to_string() };

    let resource_manager = ResourceManager::new(0, 1).unwrap();

    let request = resource_manager.find_resources("?*INSTR").unwrap();
    assert_eq!(request.expression, b"?*INSTR\0");
    let search = request.found(0, 2, 2, &buffer("GPIB0::1::INSTR"));
    let search = search.next(0, &buffer("GPIB0::2::INSTR"));
    let resources = match search {
        Find::Done(resources) => resources,
        other => panic!("{:?}", other),
    };
    println!("Resources:\n{:#?}", resources);
    assert!(
        !resources.is_empty(),
        "At least one valid instrument resource is required for testing"
    );

    let mut found = None;
    for (at, resource) in resources.iter().enumerate() {
        let session = Instrument::open(&resource_manager, resource)
            .unwrap()
            .complete(0, 10 + at as u32)
            .unwrap();
        let response = bench.run(session.identification_query()).unwrap();
        let identification = session.identification_response(&response).unwrap();
        if let Ok(instrument) = Instrument::from_serial(session, &identification, "1234") {
            found = Some(instrument);
            break;
        }
    }
    let instrument = found.unwrap();

    let response = bench.run(instrument.identification_query()).unwrap();
    let identification = instrument.identification_response(&response).unwrap();
    println!("Identification:\n{:#?}", identification);

    let response = bench.run(instrument.standard_event_status_enable_query()).unwrap();
    let standard_event_status_enable =
        instrument.standard_event_status_enable_response(&response).unwrap();
    println!("Standard Event Status Enable:\n{:#?}", standard_event_status_enable);

    let response = bench.run(instrument.standard_event_status_register_query()).unwrap();
    let standard_event_status_register =
        instrument.standard_event_status_register_response(&response).unwrap();
    println!("Standard Event Status Register:\n{:#?}", standard_event_status_register);

    let response = bench.run(instrument.operation_complete_query()).unwrap();
    let operation_complete = instrument.operation_complete_response(&response).unwrap();
    println!("Operation Complete:\n{}", operation_complete);

    let response = bench.run(instrument.service_request_enable_query()).unwrap();
    let service_enable = instrument.service_request_enable_response(&response).unwrap();
    println!("Service Request Enable:\n{:#?}", service_enable);

    let response = bench.run(instrument.read_status_byte_query()).unwrap();
    let status_byte_register = instrument.read_status_byte_response(&response).unwrap();
    println!("Status Byte Register:\n{:#?}", status_byte_register);

    let response = bench.run(instrument.self_test_query()).unwrap();
    let self_test = instrument.self_test_response(&response).unwrap();
    println!("Self Test:\n{}", self_test);

    assert_eq!(identification.serial, "1234");
    assert_eq!(standard_event_status_enable.value(), 32);
    assert_eq!(standard_event_status_register.value(), 133);
    assert!(operation_complete);
    assert_eq!(service_enable.value(), 16);
    assert_eq!(status_byte_register.value(), 64);
    assert!(self_test);
}
