//! An instrument of one make and model on top of a session.
use crate::commands::MandatoryCommands;
use crate::resource_manager::{
    has_nul, zero_terminated, OpenRequest, OpenRequestView, ResourceManager,
};
use crate::session::Session;
use crate::utility::{AccessMode, Identification, Timeout};
use vstd::prelude::*;
use vstd::string::*;

verus! {

/// The manufacturer that the instrument names in its identification.
pub const MANUFACTURER: &'static str = "";

/// The model that the instrument names in its identification.
pub const MODEL: &'static str = "";

/// What can go wrong on the way to an instrument.
#[derive(Debug, PartialEq, Eq)]
pub enum Error {
    /// The session layer has failed.
    Visa(crate::error::Error),
    /// The resource is there, but it is no instrument of this make and model, or not
    /// the one that was asked for.
    InstrumentNotFound,
}

/// An instrument of the make and model that this module is for, with the session that
/// leads to it.
#[derive(Debug, PartialEq, Eq)]
pub struct Instrument {
    session: Session,
}

impl View for Instrument {
    type V = u32;

    closed spec fn view(&self) -> u32 {
        self.session@
    }
}

/// Whether an identification names the make and model of this instrument.
pub open spec fn is_this_model(identification: Identification) -> bool {
    identification.manufacturer@ == MANUFACTURER@ && identification.model@ == MODEL@
}

fn same(a: &String, b: &str) -> (r: bool)
    ensures
        r == (a@ == b@),
{
    *a == String::from_str(b)
}

impl Instrument {
    /// The request that opens the session to an instrument: for it alone, and without
    /// waiting for a lock.
    pub fn open(resource_manager: &ResourceManager, resource: &str) -> (r: Result<
        OpenRequest,
        Error,
    >)
        ensures
            match r {
                Ok(request) => !has_nul(resource@) && request@ == (OpenRequestView {
                    manager: resource_manager@,
                    resource_name: zero_terminated(resource@),
                    access_mode: AccessMode::Exclusive.wire(),
                    timeout: 0,
                }),
                Err(error) => has_nul(resource@) && error == Error::Visa(
                    crate::error::Error::InvalidResourceName,
                ),
            },
    {
        match resource_manager.open_session(resource, AccessMode::Exclusive, Timeout::Immediate) {
            Ok(request) => Ok(request),
            Err(error) => Err(Error::Visa(error)),
        }
    }

    /// The instrument behind a session, from what it has answered to the identification
    /// query: it must name this make and model.
    pub fn from_resource(session: Session, identification: &Identification) -> (r: Result<
        Instrument,
        Error,
    >)
        ensures
            match r {
                Ok(instrument) => is_this_model(*identification) && instrument@ == session@,
                Err(error) => !is_this_model(*identification) && error == Error::InstrumentNotFound,
            },
    {
        if same(&identification.manufacturer, MANUFACTURER) && same(&identification.model, MODEL) {
            Ok(Instrument { session })
        } else {
            Err(Error::InstrumentNotFound)
        }
    }

    /// The instrument with the given serial number behind a session, from what it has
    /// answered to the identification query: it must name this make and model and that
    /// serial number.
    pub fn from_serial(session: Session, identification: &Identification, serial: &str) -> (r:
        Result<Instrument, Error>)
        ensures
            match r {
                Ok(instrument) => is_this_model(*identification) && identification.serial@
                    == serial@ && instrument@ == session@,
                Err(error) => !(is_this_model(*identification) && identification.serial@
                    == serial@) && error == Error::InstrumentNotFound,
            },
    {
        if same(&identification.manufacturer, MANUFACTURER) && same(&identification.model, MODEL)
            && same(&identification.serial, serial) {
            Ok(Instrument { session })
        } else {
            Err(Error::InstrumentNotFound)
        }
    }
}

impl MandatoryCommands for Instrument {
    open spec fn session_handle(&self) -> u32 {
        self@
    }

    fn as_session(&self) -> (r: &Session) {
        &self.session
    }
}

} // verus!
