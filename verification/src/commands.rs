//! The mandatory commands of IEEE 488.2. Each command is a fixed mnemonic on a line of
//! its own; each query is such a line and a response in a format of its own.
use crate::error::Error;
use crate::register::{
    register_value, ServiceRequestEnable, StandardEventStatusEnableRegister,
    StandardEventStatusRegister, StatusByteRegister,
};
use crate::session::{write_request, Query, QueryView, Session, WriteRequest};
use crate::text::{
    all_whitespace, decimal, lemma_trimmed_padding, to_decimal, trim, trimmed,
};
use crate::utility::{identification_fields, Identification, IdentificationView};
use vstd::prelude::*;
use vstd::string::*;

verus! {

/// Whether `response` is the one character `c` and nothing else.
pub open spec fn is_only(response: Seq<char>, c: char) -> bool {
    response.len() == 1 && response[0] == c
}

/// What the response to the operation-complete query says, once the white space around
/// it is cut away: `1` that all pending operations have finished, `0` that they have
/// not. Any other text says nothing.
pub open spec fn operation_complete(response: Seq<char>) -> Option<bool> {
    if is_only(trimmed(response), '0') {
        Some(false)
    } else if is_only(trimmed(response), '1') {
        Some(true)
    } else {
        None
    }
}

/// What the response to the self-test query says, once the white space around it is cut
/// away: `0` that the test has passed, `1` that it has failed. Any other text says
/// nothing. Zero is the good answer here, as the standard has it, where for the
/// operation-complete query it is one.
pub open spec fn self_test_passed(response: Seq<char>) -> Option<bool> {
    if is_only(trimmed(response), '0') {
        Some(true)
    } else if is_only(trimmed(response), '1') {
        Some(false)
    } else {
        None
    }
}

/// A line terminator, or any other white space around the digit, changes nothing of what
/// such a response says.
pub proof fn lemma_digit_response(before: Seq<char>, digit: char, after: Seq<char>)
    requires
        all_whitespace(before),
        all_whitespace(after),
        digit == '0' || digit == '1',
    ensures
        operation_complete(before + seq![digit] + after) == Some(digit == '1'),
        self_test_passed(before + seq![digit] + after) == Some(digit == '0'),
{
    lemma_trimmed_padding(before, seq![digit], after);
}

/// The line that sets a register: the mnemonic, a space, the register's value in decimal
/// and a newline.
pub open spec fn setting(mnemonic: Seq<char>, value: u8) -> Seq<char> {
    mnemonic + seq![' '] + decimal(value as nat) + seq!['\n']
}

fn is_char(response: &str, c: char) -> (r: bool)
    ensures
        r == is_only(response@, c),
{
    response.unicode_len() == 1 && response.get_char(0) == c
}

/// Puts the line together that sets a register.
fn setting_line(mnemonic: &str, value: u8) -> (r: String)
    ensures
        r@ == setting(mnemonic@, value),
{
    proof {
        reveal_strlit(" ");
        reveal_strlit("\n");
        assert(" "@ =~= seq![' ']);
        assert("\n"@ =~= seq!['\n']);
    }
    let number = to_decimal(value as u128);
    let mut line = String::from_str(mnemonic);
    line.append(" ");
    line.append(number.as_str());
    line.append("\n");
    line
}

/// Anything that sends its commands through a session: the session itself, or an
/// instrument that owns one. Who says which session that is has all the mandatory
/// commands. A command is the request that writes its line; a query is the exchange
/// that writes its line and reads the response, and has a method beside it that reads
/// the value out of the response.
pub trait MandatoryCommands {
    /// The handle of the session that the commands go to.
    spec fn session_handle(&self) -> u32;

    /// The session that the commands go to.
    fn as_session(&self) -> (r: &Session)
        ensures
            r@ == self.session_handle(),
    ;

    /// Clears the status registers and the error queue.
    fn clear_status(&self) -> (r: WriteRequest)
        ensures
            r@ == write_request(self.session_handle(), "*CLS\n"@),
    {
        self.as_session().write("*CLS\n")
    }

    /// Sets the Standard Event Status Enable Register.
    fn standard_event_status_enable_command(
        &self,
        register: StandardEventStatusEnableRegister,
    ) -> (r: WriteRequest)
        ensures
            r@ == write_request(self.session_handle(), setting("*ESE"@, register@)),
    {
        let line = setting_line("*ESE", register.value());
        self.as_session().write(line.as_str())
    }

    /// Asks the instrument to set the operation-complete bit once all pending operations
    /// have finished.
    fn operation_complete_command(&self) -> (r: WriteRequest)
        ensures
            r@ == write_request(self.session_handle(), "*OPC\n"@),
    {
        self.as_session().write("*OPC\n")
    }

    /// Resets the instrument.
    fn reset_command(&self) -> (r: WriteRequest)
        ensures
            r@ == write_request(self.session_handle(), "*RST\n"@),
    {
        self.as_session().write("*RST\n")
    }

    /// Sets the Service Request Enable Register.
    fn service_request_enable_command(
        &self,
        register: ServiceRequestEnable,
    ) -> (r: WriteRequest)
        ensures
            r@ == write_request(self.session_handle(), setting("*SRE"@, register@)),
    {
        let line = setting_line("*SRE", register.value());
        self.as_session().write(line.as_str())
    }

    /// Makes the instrument wait until all pending operations have finished before it
    /// goes on.
    fn wait_to_continue_command(&self) -> (r: WriteRequest)
        ensures
            r@ == write_request(self.session_handle(), "*WAI\n"@),
    {
        self.as_session().write("*WAI\n")
    }

    /// Asks for the Standard Event Status Enable Register.
    fn standard_event_status_enable_query(&self) -> (r: Query)
        ensures
            r@ == QueryView::Writing(write_request(self.session_handle(), "*ESE?\n"@)),
    {
        self.as_session().query("*ESE?\n")
    }

    /// Reads the Standard Event Status Enable Register out of the response to its query.
    fn standard_event_status_enable_response(&self, response: &str) -> (r: Result<
        StandardEventStatusEnableRegister,
        Error,
    >)
        ensures
            match r {
                Ok(register) => register_value(response@) == Some(register@),
                Err(Error::StandardEventStatusEnableRegisterParse(text)) => {
                    register_value(response@) is None && text@ == response@
                },
                Err(_) => false,
            },
    {
        StandardEventStatusEnableRegister::try_from(response)
    }

    /// Asks for the Standard Event Status Register.
    fn standard_event_status_register_query(&self) -> (r: Query)
        ensures
            r@ == QueryView::Writing(write_request(self.session_handle(), "*ESR?\n"@)),
    {
        self.as_session().query("*ESR?\n")
    }

    /// Reads the Standard Event Status Register out of the response to its query.
    fn standard_event_status_register_response(&self, response: &str) -> (r: Result<
        StandardEventStatusRegister,
        Error,
    >)
        ensures
            match r {
                Ok(register) => register_value(response@) == Some(register@),
                Err(Error::StandardEventStatusRegisterParse(text)) => {
                    register_value(response@) is None && text@ == response@
                },
                Err(_) => false,
            },
    {
        StandardEventStatusRegister::try_from(response)
    }

    /// Asks for the identification of the instrument.
    fn identification_query(&self) -> (r: Query)
        ensures
            r@ == QueryView::Writing(write_request(self.session_handle(), "*IDN?\n"@)),
    {
        self.as_session().query("*IDN?\n")
    }

    /// Reads the identification of the instrument out of the response to its query.
    fn identification_response(&self, response: &str) -> (r: Result<Identification, Error>)
        ensures
            match r {
                Ok(id) => identification_fields(response@).len() == 4 && id@ == (
                IdentificationView {
                    manufacturer: identification_fields(response@)[0],
                    model: identification_fields(response@)[1],
                    serial: identification_fields(response@)[2],
                    firmware: identification_fields(response@)[3],
                }),
                Err(Error::IdentityParse(line)) => identification_fields(response@).len() != 4
                    && line@ == response@,
                Err(_) => false,
            },
    {
        Identification::try_from(response)
    }

    /// Asks whether all pending operations have finished.
    fn operation_complete_query(&self) -> (r: Query)
        ensures
            r@ == QueryView::Writing(write_request(self.session_handle(), "*OPC?\n"@)),
    {
        self.as_session().query("*OPC?\n")
    }

    /// Reads out of the response to the query whether all pending operations have finished.
    /// The white space around the response is cut away first; the error holds the
    /// response as it came.
    fn operation_complete_response(&self, response: &str) -> (r: Result<bool, Error>)
        ensures
            match r {
                Ok(answer) => operation_complete(response@) == Some(answer),
                Err(Error::OperationCompleteQueryParse(text)) => {
                    operation_complete(response@) is None && text@ == response@
                },
                Err(_) => false,
            },
    {
        let answer = trim(response);
        if is_char(answer, '0') {
            Ok(false)
        } else if is_char(answer, '1') {
            Ok(true)
        } else {
            Err(Error::OperationCompleteQueryParse(response.to_owned()))
        }
    }

    /// Asks for the Service Request Enable Register.
    fn service_request_enable_query(&self) -> (r: Query)
        ensures
            r@ == QueryView::Writing(write_request(self.session_handle(), "*SRE?\n"@)),
    {
        self.as_session().query("*SRE?\n")
    }

    /// Reads the Service Request Enable Register out of the response to its query.
    fn service_request_enable_response(&self, response: &str) -> (r: Result<
        ServiceRequestEnable,
        Error,
    >)
        ensures
            match r {
                Ok(register) => register_value(response@) == Some(register@),
                Err(Error::ServiceRequestEnableQueryParse(text)) => {
                    register_value(response@) is None && text@ == response@
                },
                Err(_) => false,
            },
    {
        ServiceRequestEnable::try_from(response)
    }

    /// Asks for the Status Byte Register.
    fn read_status_byte_query(&self) -> (r: Query)
        ensures
            r@ == QueryView::Writing(write_request(self.session_handle(), "*STB?\n"@)),
    {
        self.as_session().query("*STB?\n")
    }

    /// Reads the Status Byte Register out of the response to its query.
    fn read_status_byte_response(&self, response: &str) -> (r: Result<
        StatusByteRegister,
        Error,
    >)
        ensures
            match r {
                Ok(register) => register_value(response@) == Some(register@),
                Err(Error::StatusByteRegisterQueryParse(text)) => {
                    register_value(response@) is None && text@ == response@
                },
                Err(_) => false,
            },
    {
        StatusByteRegister::try_from(response)
    }

    /// Asks for the outcome of the self-test.
    fn self_test_query(&self) -> (r: Query)
        ensures
            r@ == QueryView::Writing(write_request(self.session_handle(), "*TST?\n"@)),
    {
        self.as_session().query("*TST?\n")
    }

    /// Reads out of the response to the query whether the self-test has passed.
    /// The white space around the response is cut away first; the error holds the
    /// response as it came.
    fn self_test_response(&self, response: &str) -> (r: Result<bool, Error>)
        ensures
            match r {
                Ok(answer) => self_test_passed(response@) == Some(answer),
                Err(Error::SelfTestParse(text)) => {
                    self_test_passed(response@) is None && text@ == response@
                },
                Err(_) => false,
            },
    {
        let answer = trim(response);
        if is_char(answer, '0') {
            Ok(true)
        } else if is_char(answer, '1') {
            Ok(false)
        } else {
            Err(Error::SelfTestParse(response.to_owned()))
        }
    }
}

impl MandatoryCommands for Session {
    open spec fn session_handle(&self) -> u32 {
        self@
    }

    fn as_session(&self) -> (r: &Session) {
        self
    }
}

/// Anything that can be written as a piece of a SCPI command.
pub trait AsScpi {
    fn as_scpi(&self) -> String;
}

} // verus!
