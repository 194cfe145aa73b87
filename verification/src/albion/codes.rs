//! Operation and event codes: which number stands for which game message.
//!
//! The numbers change with game versions, so they come in a [`CodeTable`];
//! the library reads the code parameters of a message against it.

use vstd::prelude::*;
use crate::packet::parameters::RawParameters;
use crate::text::{concat_str, decimal, format_i64, to_owned_string};
use crate::util::{param_i64, spec_param_i64, to_signed_short};

verus! {

/// The operations the library acts on.
#[derive(Clone, Copy, Debug, PartialEq, Eq, Structural)]
pub enum OperationCode {
    Join,
    AuctionGetOffers,
    AuctionGetRequests,
    AuctionBuyOffer,
    AuctionSellSpecificItem,
    GetMailInfos,
    ReadMail,
}

/// The events the library acts on.
#[derive(Clone, Copy, Debug, PartialEq, Eq, Structural)]
pub enum EventCode {
    Move,
    MarketPlaceNotification,
    ChatMessage,
    ChatSay,
    JoinedChatChannel,
    LeftChatChannel,
}

impl OperationCode {
    pub open spec fn spec_name(self) -> Seq<char> {
        match self {
            OperationCode::Join => "Join"@,
            OperationCode::AuctionGetOffers => "AuctionGetOffers"@,
            OperationCode::AuctionGetRequests => "AuctionGetRequests"@,
            OperationCode::AuctionBuyOffer => "AuctionBuyOffer"@,
            OperationCode::AuctionSellSpecificItem => "AuctionSellSpecificItem"@,
            OperationCode::GetMailInfos => "GetMailInfos"@,
            OperationCode::ReadMail => "ReadMail"@,
        }
    }

    /// The operation's name, as its variant is spelled.
    pub fn name(self) -> (r: &'static str)
        ensures
            r@ == self.spec_name(),
    {
        match self {
            OperationCode::Join => "Join",
            OperationCode::AuctionGetOffers => "AuctionGetOffers",
            OperationCode::AuctionGetRequests => "AuctionGetRequests",
            OperationCode::AuctionBuyOffer => "AuctionBuyOffer",
            OperationCode::AuctionSellSpecificItem => "AuctionSellSpecificItem",
            OperationCode::GetMailInfos => "GetMailInfos",
            OperationCode::ReadMail => "ReadMail",
        }
    }
}

impl EventCode {
    pub open spec fn spec_name(self) -> Seq<char> {
        match self {
            EventCode::Move => "Move"@,
            EventCode::MarketPlaceNotification => "MarketPlaceNotification"@,
            EventCode::ChatMessage => "ChatMessage"@,
            EventCode::ChatSay => "ChatSay"@,
            EventCode::JoinedChatChannel => "JoinedChatChannel"@,
            EventCode::LeftChatChannel => "LeftChatChannel"@,
        }
    }

    /// The event's name, as its variant is spelled.
    pub fn name(self) -> (r: &'static str)
        ensures
            r@ == self.spec_name(),
    {
        match self {
            EventCode::Move => "Move",
            EventCode::MarketPlaceNotification => "MarketPlaceNotification",
            EventCode::ChatMessage => "ChatMessage",
            EventCode::ChatSay => "ChatSay",
            EventCode::JoinedChatChannel => "JoinedChatChannel",
            EventCode::LeftChatChannel => "LeftChatChannel",
        }
    }
}

/// The first entry of a table with the given number.
pub open spec fn first_with<T>(entries: Seq<(i32, T)>, code: i32) -> Option<T>
    decreases entries.len(),
{
    if entries.len() == 0 {
        None
    } else if entries[0].0 == code {
        Some(entries[0].1)
    } else {
        first_with(entries.drop_first(), code)
    }
}

/// The number of the first entry with the given value.
pub open spec fn number_of<T>(entries: Seq<(i32, T)>, value: T) -> Option<i32>
    decreases entries.len(),
{
    if entries.len() == 0 {
        None
    } else if entries[0].1 == value {
        Some(entries[0].0)
    } else {
        number_of(entries.drop_first(), value)
    }
}

fn lookup<T: Copy>(entries: &Vec<(i32, T)>, code: i32) -> (r: Option<T>)
    ensures
        r == first_with(entries@, code),
{
    let mut i: usize = 0;
    assert(entries@.skip(0) =~= entries@);
    while i < entries.len()
        invariant
            i <= entries.len(),
            first_with(entries@, code) == first_with(entries@.skip(i as int), code),
        decreases entries.len() - i,
    {
        let ghost rest = entries@.skip(i as int);
        assert(rest.drop_first() =~= entries@.skip(i + 1));
        let (n, v) = entries[i];
        if n == code {
            return Some(v);
        }
        i = i + 1;
    }
    None
}

/// Numbers for operations and events; where a number appears twice, its
/// first entry counts.
pub struct CodeTable {
    pub operations: Vec<(i32, OperationCode)>,
    pub events: Vec<(i32, EventCode)>,
}

impl CodeTable {
    /// A table with the given entries.
    pub fn new(operations: Vec<(i32, OperationCode)>, events: Vec<(i32, EventCode)>) -> (r:
        CodeTable)
        ensures
            r.operations@ == operations@,
            r.events@ == events@,
    {
        CodeTable { operations, events }
    }

    /// A table that knows no number.
    pub fn empty() -> (r: CodeTable)
        ensures
            r.operations@.len() == 0,
            r.events@.len() == 0,
    {
        CodeTable { operations: Vec::new(), events: Vec::new() }
    }

    /// The operation a number stands for.
    pub fn operation(&self, code: i32) -> (r: Option<OperationCode>)
        ensures
            r == first_with(self.operations@, code),
    {
        lookup(&self.operations, code)
    }

    /// The event a number stands for.
    pub fn event(&self, code: i32) -> (r: Option<EventCode>)
        ensures
            r == first_with(self.events@, code),
    {
        lookup(&self.events, code)
    }

    /// The number of an event.
    pub fn event_number(&self, event: EventCode) -> (r: Option<i32>)
        ensures
            r == number_of(self.events@, event),
    {
        let mut i: usize = 0;
        assert(self.events@.skip(0) =~= self.events@);
        while i < self.events.len()
            invariant
                i <= self.events.len(),
                number_of(self.events@, event) == number_of(self.events@.skip(i as int), event),
            decreases self.events.len() - i,
        {
            let ghost rest = self.events@.skip(i as int);
            assert(rest.drop_first() =~= self.events@.skip(i + 1));
            let (n, v) = self.events[i];
            if v == event {
                return Some(n);
            }
            i = i + 1;
        }
        None
    }
}

/// Why a message's code could not be read.
#[derive(Debug)]
pub struct CodeParseError {
    pub raw_code: Option<i32>,
    pub reason: &'static str,
    pub message: String,
}

/// The low 16 bits of the code parameter, as a signed short.
pub open spec fn short_code(v: i64) -> i32 {
    (v as i16) as i32
}

/// The second reading of an unknown event code: the code taken as an
/// unsigned short whose low four bits are `0001` names the event numbered
/// by its upper twelve bits.
pub open spec fn event_fallback(code: i32) -> Option<i32> {
    let u: int = if code < 0 {
        code + 65536
    } else {
        code as int
    };
    if u % 16 == 1 {
        Some((u / 16) as i32)
    } else {
        None
    }
}

/// What reading an operation code gives: the operation the table names for
/// the code parameter (key 253, an integer, its low 16 bits as a signed
/// short); an error with reason `missing_operation_code` when the parameter
/// is missing or not an integer, `unknown_operation_code` with the code when
/// the table does not name it.
pub open spec fn operation_code_result(
    table: CodeTable,
    p: Map<u8, crate::packet::parameters::ParamValue>,
    r: Result<OperationCode, CodeParseError>,
) -> bool {
    match spec_param_i64(p, 253) {
        None => r matches Err(e) && e.raw_code is None && e.reason@ == "missing_operation_code"@
            && e.message@ == "Operation code parameter 253 is missing"@,
        Some(v) => match first_with(table.operations@, short_code(v)) {
            Some(op) => r == Ok::<OperationCode, CodeParseError>(op),
            None => r matches Err(e) && e.raw_code == Some(short_code(v)) && e.reason@
                == "unknown_operation_code"@ && e.message@
                == "Unknown operation code in parameter 253: "@ + decimal(short_code(v) as int),
        },
    }
}

/// What reading an event code gives: as for operations with key 252, and
/// when the table does not name the code, the event its
/// [`event_fallback`] reading names, if any.
pub open spec fn event_code_result(
    table: CodeTable,
    p: Map<u8, crate::packet::parameters::ParamValue>,
    r: Result<EventCode, CodeParseError>,
) -> bool {
    match spec_param_i64(p, 252) {
        None => r matches Err(e) && e.raw_code is None && e.reason@ == "missing_event_code"@
            && e.message@ == "Event code parameter 252 is missing"@,
        Some(v) => {
            let code = short_code(v);
            match first_with(table.events@, code) {
                Some(ev) => r == Ok::<EventCode, CodeParseError>(ev),
                None => match event_fallback(code) {
                    Some(s) if first_with(table.events@, s) is Some => r == Ok::<
                        EventCode,
                        CodeParseError,
                    >(first_with(table.events@, s)->Some_0),
                    _ => r matches Err(e) && e.raw_code == Some(code) && e.reason@
                        == "unknown_event_code"@ && e.message@
                        == "Unknown event code in parameter 252: "@ + decimal(code as int),
                },
            }
        },
    }
}

/// Reads a message's operation code, as [`operation_code_result`] says.
pub fn parse_operation_code(table: &CodeTable, params: &RawParameters) -> (r: Result<
    OperationCode,
    CodeParseError,
>)
    ensures
        operation_code_result(*table, params.view(), r),
{
    let value = match param_i64(params, 253) {
        Some(v) => v,
        None => {
            return Err(
                CodeParseError {
                    raw_code: None,
                    reason: "missing_operation_code",
                    message: to_owned_string("Operation code parameter 253 is missing"),
                },
            );
        },
    };
    let code = to_signed_short(value);
    match table.operation(code) {
        Some(op) => Ok(op),
        None => Err(
            CodeParseError {
                raw_code: Some(code),
                reason: "unknown_operation_code",
                message: concat_str(
                    "Unknown operation code in parameter 253: ",
                    format_i64(code as i64).as_str(),
                ),
            },
        ),
    }
}

/// Reads a message's event code, as [`event_code_result`] says.
pub fn parse_event_code(table: &CodeTable, params: &RawParameters) -> (r: Result<
    EventCode,
    CodeParseError,
>)
    ensures
        event_code_result(*table, params.view(), r),
{
    let value = match param_i64(params, 252) {
        Some(v) => v,
        None => {
            return Err(
                CodeParseError {
                    raw_code: None,
                    reason: "missing_event_code",
                    message: to_owned_string("Event code parameter 252 is missing"),
                },
            );
        },
    };
    let code = to_signed_short(value);
    if let Some(ev) = table.event(code) {
        return Ok(ev);
    }
    let unsigned_value: i32 = if code < 0 {
        code + 65536
    } else {
        code
    };
    let shifted = unsigned_value / 16;
    if unsigned_value % 16 == 1 {
        if let Some(ev) = table.event(shifted) {
            return Ok(ev);
        }
    }
    Err(
        CodeParseError {
            raw_code: Some(code),
            reason: "unknown_event_code",
            message: concat_str(
                "Unknown event code in parameter 252: ",
                format_i64(code as i64).as_str(),
            ),
        },
    )
}

} // verus!
