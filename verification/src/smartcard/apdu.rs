use vstd::prelude::*;

use crate::text::{hex_byte, hex_digit_char, string_from_chars};

verus! {

/// Exchanges allowed before a command is abandoned.
pub const MAX_EXCHANGES: usize = 128;

/// Largest response, in bytes, that an exchange collects.
pub const MAX_RESPONSE_SIZE: usize = 1048576;

/// Largest data field of a short APDU.
pub const MAX_SHORT_APDU_DATA: usize = 255;

/// The ISO command-chaining bit of CLA.
pub const COMMAND_CHAINING_BIT: u8 = 0x10;

/// Reasons an APDU exchange fails.
#[derive(Clone, Copy, Debug, PartialEq, Eq)]
pub enum ApduError {
    /// A response was shorter than its status word.
    InvalidResponse { length: usize },
    /// The collected response grew past `MAX_RESPONSE_SIZE`.
    ResponseTooLarge,
    /// A `6Cxx` answer asked to correct Le on an empty command.
    EmptyCommand,
    /// The card answered with a failing status word.
    Status { sw1: u8, sw2: u8 },
    /// The card had not finished after `MAX_EXCHANGES` exchanges.
    Incomplete,
    /// A non-final chained command got a response shorter than a status word.
    ChainedInvalidResponse { length: usize },
    /// A non-final chained command got data back.
    ChainedData { length: usize },
    /// A non-final chained command got a failing status word.
    ChainedStatus { sw1: u8, sw2: u8 },
}

/// What the caller does next in an exchange with the card.
#[derive(Debug)]
pub enum ExchangeStep {
    /// Send this command and hand the card's response back.
    Transmit(Vec<u8>),
    /// The exchange finished; this is the response data without the final
    /// status word.
    Complete(Vec<u8>),
    Failed(ApduError),
}

/// The data field of a response: all but its two status bytes.
pub open spec fn response_data(response: Seq<u8>) -> Seq<u8> {
    response.subrange(0, response.len() - 2)
}

pub open spec fn status_sw1(response: Seq<u8>) -> u8 {
    response[response.len() - 2]
}

pub open spec fn status_sw2(response: Seq<u8>) -> u8 {
    response[response.len() - 1]
}

/// The GET RESPONSE command that fetches `length` waiting bytes.
pub open spec fn get_response_command(length: u8) -> Seq<u8> {
    seq![0x00u8, 0xC0u8, 0x00u8, 0x00u8, length]
}

/// State of a command whose response may come in several parts.
///
/// `9000` ends the exchange; `61xx` asks for the next part with GET
/// RESPONSE; `6Cxx` repeats the command with Le corrected to `xx`.
#[derive(Debug)]
pub struct CompleteExchange {
    /// The command to send (again).
    pub command: Vec<u8>,
    /// Response data collected so far.
    pub collected: Vec<u8>,
    /// Responses received so far.
    pub exchanges: usize,
}

impl CompleteExchange {
    /// Starts an exchange for `apdu`; the first command to send is `apdu`.
    pub fn new(apdu: &[u8]) -> (exchange: Self)
        ensures
            exchange.command@ == apdu@,
            exchange.collected@ == Seq::<u8>::empty(),
            exchange.exchanges == 0,
    {
        CompleteExchange {
            command: vstd::slice::slice_to_vec(apdu),
            collected: Vec::new(),
            exchanges: 0,
        }
    }
}

/// The step that follows a response when the exchange may continue: the
/// next command, unless the exchange budget is spent.
pub open spec fn continue_step(exchange: CompleteExchange, step: ExchangeStep) -> bool {
    if exchange.exchanges >= MAX_EXCHANGES {
        step == ExchangeStep::Failed(ApduError::Incomplete)
    } else {
        step matches ExchangeStep::Transmit(command) && command@ == exchange.command@
    }
}

/// What one response does to a complete exchange, `before` the response and
/// `after` it, and the step that follows: a spent budget fails; otherwise
/// the response is counted, a malformed or oversized one fails, and its
/// data is collected; `9000` completes, `61xx` asks for more with GET
/// RESPONSE, `6Cxx` repeats the command with Le corrected, and any other
/// status fails.
pub open spec fn complete_step(
    before: CompleteExchange,
    response: Seq<u8>,
    after: CompleteExchange,
    step: ExchangeStep,
) -> bool {
    &&& before.exchanges >= MAX_EXCHANGES ==> step == ExchangeStep::Failed(ApduError::Incomplete)
    &&& before.exchanges < MAX_EXCHANGES ==> after.exchanges == before.exchanges + 1
    &&& before.exchanges < MAX_EXCHANGES && response.len() < 2 ==> step == ExchangeStep::Failed(
        ApduError::InvalidResponse { length: response.len() as usize },
    )
    &&& before.exchanges < MAX_EXCHANGES && response.len() >= 2 && before.collected@.len()
        + response_data(response).len() > MAX_RESPONSE_SIZE ==> step == ExchangeStep::Failed(
        ApduError::ResponseTooLarge,
    )
    &&& before.exchanges < MAX_EXCHANGES && response.len() >= 2 && before.collected@.len()
        + response_data(response).len() <= MAX_RESPONSE_SIZE ==> ({
        let collected = before.collected@ + response_data(response);
        let sw1 = status_sw1(response);
        let sw2 = status_sw2(response);
        &&& after.collected@ == collected
        &&& (sw1 == 0x90 && sw2 == 0x00) ==> (step matches ExchangeStep::Complete(data) && data@
            == collected)
        &&& sw1 == 0x61 ==> after.command@ == get_response_command(sw2) && continue_step(
            after,
            step,
        )
        &&& (sw1 == 0x6C && before.command@.len() == 0) ==> step == ExchangeStep::Failed(
            ApduError::EmptyCommand,
        )
        &&& (sw1 == 0x6C && before.command@.len() > 0) ==> after.command@
            == before.command@.update(before.command@.len() - 1, sw2) && continue_step(
            after,
            step,
        )
        &&& !(sw1 == 0x90 && sw2 == 0x00) && sw1 != 0x61 && sw1 != 0x6C ==> step
            == ExchangeStep::Failed(ApduError::Status { sw1, sw2 })
    })
}

/// Takes the card's response to the last command of a complete exchange and
/// decides what comes next.
pub fn transmit_complete(exchange: &mut CompleteExchange, response: &[u8]) -> (step: ExchangeStep)
    ensures
        complete_step(*old(exchange), response@, *final(exchange), step),
{
    if exchange.exchanges >= MAX_EXCHANGES {
        return ExchangeStep::Failed(ApduError::Incomplete);
    }
    exchange.exchanges = exchange.exchanges + 1;
    if response.len() < 2 {
        return ExchangeStep::Failed(ApduError::InvalidResponse { length: response.len() });
    }
    let data_length = response.len() - 2;
    let sw1 = response[data_length];
    let sw2 = response[data_length + 1];
    if exchange.collected.len() > MAX_RESPONSE_SIZE || data_length > MAX_RESPONSE_SIZE
        - exchange.collected.len() {
        return ExchangeStep::Failed(ApduError::ResponseTooLarge);
    }
    let ghost before = exchange.collected@;
    let ghost exchanges = exchange.exchanges;
    let ghost command = exchange.command@;
    let mut index: usize = 0;
    while index < data_length
        invariant
            exchange.exchanges == exchanges,
            exchange.command@ == command,
            data_length == response@.len() - 2,
            index <= data_length,
            exchange.collected@ == before + response@.subrange(0, index as int),
        decreases data_length - index,
    {
        exchange.collected.push(response[index]);
        index = index + 1;
        assert(exchange.collected@ =~= before + response@.subrange(0, index as int));
    }
    if sw1 == 0x90 && sw2 == 0x00 {
        return ExchangeStep::Complete(exchange.collected.clone());
    }
    if sw1 == 0x61 {
        exchange.command = vec![0x00, 0xC0, 0x00, 0x00, sw2];
        assert(exchange.command@ =~= get_response_command(sw2));
    } else if sw1 == 0x6C {
        let length = exchange.command.len();
        if length == 0 {
            return ExchangeStep::Failed(ApduError::EmptyCommand);
        }
        exchange.command.set(length - 1, sw2);
    } else {
        return ExchangeStep::Failed(ApduError::Status { sw1, sw2 });
    }
    if exchange.exchanges >= MAX_EXCHANGES {
        return ExchangeStep::Failed(ApduError::Incomplete);
    }
    ExchangeStep::Transmit(exchange.command.clone())
}

/// Where the chunk of a chained command that starts at `offset` ends.
pub open spec fn chunk_end(length: int, offset: int) -> int {
    if offset + MAX_SHORT_APDU_DATA < length {
        offset + MAX_SHORT_APDU_DATA
    } else {
        length
    }
}

/// The command that carries the chunk of `data` starting at `offset`.
/// Non-final chunks set the chaining bit; the final one clears it and adds
/// Le. An empty data field is sent as one command with Le.
pub open spec fn chunk_command(cla: u8, ins: u8, p1: u8, p2: u8, data: Seq<u8>, offset: int) -> Seq<
    u8,
> {
    if data.len() == 0 {
        seq![cla, ins, p1, p2, 0x00u8]
    } else {
        let end = chunk_end(data.len() as int, offset);
        let chunk = data.subrange(offset, end);
        if end == data.len() {
            seq![cla, ins, p1, p2, chunk.len() as u8] + chunk + seq![0x00u8]
        } else {
            seq![cla | COMMAND_CHAINING_BIT, ins, p1, p2, chunk.len() as u8] + chunk
        }
    }
}

/// The data field of a short command APDU: the `Lc` bytes after its
/// five-byte header.
pub open spec fn command_data(command: Seq<u8>) -> Seq<u8> {
    command.subrange(5, 5 + command[4] as int)
}

/// The data the chained commands from `offset` on carry, in order.
pub open spec fn chained_data(cla: u8, ins: u8, p1: u8, p2: u8, data: Seq<u8>, offset: int) -> Seq<
    u8,
>
    decreases data.len() - offset,
{
    if offset < 0 || offset >= data.len() {
        Seq::empty()
    } else if offset + MAX_SHORT_APDU_DATA >= data.len() {
        command_data(chunk_command(cla, ins, p1, p2, data, offset))
    } else {
        command_data(chunk_command(cla, ins, p1, p2, data, offset)) + chained_data(
            cla,
            ins,
            p1,
            p2,
            data,
            offset + MAX_SHORT_APDU_DATA,
        )
    }
}

/// Command chaining loses nothing: the data fields of the chunks, sent from
/// `offset` in steps of `MAX_SHORT_APDU_DATA`, make up the data from
/// `offset` on.
pub proof fn lemma_chunks_carry_data(cla: u8, ins: u8, p1: u8, p2: u8, data: Seq<u8>, offset: int)
    requires
        0 <= offset <= data.len(),
    ensures
        chained_data(cla, ins, p1, p2, data, offset) == data.subrange(offset, data.len() as int),
    decreases data.len() - offset,
{
    if offset < data.len() {
        let end = chunk_end(data.len() as int, offset);
        let chunk = data.subrange(offset, end);
        let command = chunk_command(cla, ins, p1, p2, data, offset);
        assert(chunk.len() <= MAX_SHORT_APDU_DATA);
        assert(command[4] == chunk.len() as u8);
        assert(command_data(command) =~= chunk);
        lemma_chunks_carry_data(cla, ins, p1, p2, data, end);
        if end == data.len() {
            assert(data.subrange(end, data.len() as int) =~= Seq::<u8>::empty());
            assert(chunk =~= data.subrange(offset, data.len() as int));
        }
        assert(chunk + data.subrange(end, data.len() as int) =~= data.subrange(
            offset,
            data.len() as int,
        ));
    } else {
        assert(data.subrange(offset, data.len() as int) =~= Seq::<u8>::empty());
    }
}

/// State of a command whose data field may exceed a short APDU.
#[derive(Debug)]
pub struct ChainedExchange {
    pub cla: u8,
    pub ins: u8,
    pub p1: u8,
    pub p2: u8,
    pub data: Vec<u8>,
    /// Start of the chunk last sent.
    pub offset: usize,
    /// The exchange of the final command, once it has been sent.
    pub finishing: Option<CompleteExchange>,
}

fn build_chunk_command(cla: u8, ins: u8, p1: u8, p2: u8, data: &[u8], offset: usize) -> (command:
    Vec<u8>)
    requires
        offset < data@.len(),
    ensures
        command@ == chunk_command(cla, ins, p1, p2, data@, offset as int),
{
    let end = if data.len() - offset > MAX_SHORT_APDU_DATA {
        offset + MAX_SHORT_APDU_DATA
    } else {
        data.len()
    };
    let is_final = end == data.len();
    let count = (end - offset) as u8;
    let first = if is_final {
        cla
    } else {
        cla | COMMAND_CHAINING_BIT
    };
    let mut command: Vec<u8> = vec![first, ins, p1, p2, count];
    let ghost header = command@;
    let mut index = offset;
    while index < end
        invariant
            offset <= index <= end <= data@.len(),
            command@ == header + data@.subrange(offset as int, index as int),
        decreases end - index,
    {
        command.push(data[index]);
        index = index + 1;
        assert(command@ =~= header + data@.subrange(offset as int, index as int));
    }
    if is_final {
        command.push(0x00);
    }
    assert(command@ =~= chunk_command(cla, ins, p1, p2, data@, offset as int));
    command
}

impl ChainedExchange {
    /// Starts a chained command; returns its state and the first command to
    /// send.
    pub fn new(cla: u8, ins: u8, p1: u8, p2: u8, data: &[u8]) -> (result: (Self, Vec<u8>))
        ensures
            result.0.cla == cla && result.0.ins == ins && result.0.p1 == p1 && result.0.p2 == p2,
            result.0.data@ == data@,
            result.0.offset == 0,
            result.1@ == chunk_command(cla, ins, p1, p2, data@, 0),
            result.0.finishing is Some <==> chunk_end(data@.len() as int, 0) == data@.len(),
            result.0.finishing matches Some(exchange) ==> exchange.command@ == result.1@
                && exchange.collected@.len() == 0 && exchange.exchanges == 0,
    {
        let first = if data.len() == 0 {
            let command = vec![cla, ins, p1, p2, 0x00];
            assert(command@ =~= chunk_command(cla, ins, p1, p2, data@, 0));
            command
        } else {
            build_chunk_command(cla, ins, p1, p2, data, 0)
        };
        let finishing = if data.len() <= MAX_SHORT_APDU_DATA {
            Some(CompleteExchange::new(first.as_slice()))
        } else {
            None
        };
        (
            ChainedExchange {
                cla,
                ins,
                p1,
                p2,
                data: vstd::slice::slice_to_vec(data),
                offset: 0,
                finishing,
            },
            first,
        )
    }
}

/// What a response to a non-final chained command means: it must be a bare
/// `9000`.
pub open spec fn spec_chained_response(response: Seq<u8>) -> Result<(), ApduError> {
    if response.len() < 2 {
        Err(ApduError::ChainedInvalidResponse { length: response.len() as usize })
    } else if response.len() > 2 {
        Err(ApduError::ChainedData { length: (response.len() - 2) as usize })
    } else if !(status_sw1(response) == 0x90 && status_sw2(response) == 0x00) {
        Err(
            ApduError::ChainedStatus { sw1: status_sw1(response), sw2: status_sw2(response) },
        )
    } else {
        Ok(())
    }
}

pub fn verify_chained_response(response: &[u8]) -> (result: Result<(), ApduError>)
    ensures
        result == spec_chained_response(response@),
{
    if response.len() < 2 {
        return Err(ApduError::ChainedInvalidResponse { length: response.len() });
    }
    let status_offset = response.len() - 2;
    let sw1 = response[status_offset];
    let sw2 = response[status_offset + 1];
    if status_offset > 0 {
        return Err(ApduError::ChainedData { length: status_offset });
    }
    if !(sw1 == 0x90 && sw2 == 0x00) {
        return Err(ApduError::ChainedStatus { sw1, sw2 });
    }
    Ok(())
}

/// Takes the card's response to the last command of a chained exchange and
/// decides what comes next.
pub fn transmit_chained(exchange: &mut ChainedExchange, response: &[u8]) -> (step: ExchangeStep)
    ensures
        final(exchange).cla == old(exchange).cla && final(exchange).ins == old(exchange).ins
            && final(exchange).p1 == old(exchange).p1 && final(exchange).p2 == old(exchange).p2,
        final(exchange).data@ == old(exchange).data@,
        old(exchange).finishing matches Some(before) ==> final(exchange).offset == old(
            exchange,
        ).offset && (final(exchange).finishing matches Some(after) && complete_step(
            before,
            response@,
            after,
            step,
        )),
        old(exchange).finishing is None && old(exchange).offset + MAX_SHORT_APDU_DATA >= old(exchange).data@.len() ==> step == ExchangeStep::Failed(ApduError::Incomplete),
        old(exchange).finishing is None && old(exchange).offset + MAX_SHORT_APDU_DATA < old(exchange).data@.len() ==> (match spec_chained_response(response@) {
            Err(error) => step == ExchangeStep::Failed(error),
            Ok(()) => {
                let next = old(exchange).offset + MAX_SHORT_APDU_DATA;
                let command = chunk_command(
                    old(exchange).cla,
                    old(exchange).ins,
                    old(exchange).p1,
                    old(exchange).p2,
                    old(exchange).data@,
                    next,
                );
                &&& final(exchange).offset == next
                &&& step matches ExchangeStep::Transmit(sent) && sent@ == command
                &&& final(exchange).finishing is Some <==> chunk_end(
                    old(exchange).data@.len() as int,
                    next,
                ) == old(exchange).data@.len()
                &&& final(exchange).finishing matches Some(finish) ==> finish.command@ == command
                    && finish.collected@.len() == 0 && finish.exchanges == 0
            },
        }),
{
    if exchange.finishing.is_some() {
        let mut finishing = exchange.finishing.take().unwrap();
        let step = transmit_complete(&mut finishing, response);
        exchange.finishing = Some(finishing);
        return step;
    }
    if exchange.data.len() <= MAX_SHORT_APDU_DATA || exchange.offset >= exchange.data.len()
        - MAX_SHORT_APDU_DATA {
        return ExchangeStep::Failed(ApduError::Incomplete);
    }
    match verify_chained_response(response) {
        Err(error) => {
            return ExchangeStep::Failed(error);
        },
        Ok(()) => {},
    }
    let next = exchange.offset + MAX_SHORT_APDU_DATA;
    exchange.offset = next;
    let command = build_chunk_command(
        exchange.cla,
        exchange.ins,
        exchange.p1,
        exchange.p2,
        exchange.data.as_slice(),
        next,
    );
    if next >= exchange.data.len() - MAX_SHORT_APDU_DATA {
        exchange.finishing = Some(CompleteExchange::new(command.as_slice()));
    }
    ExchangeStep::Transmit(command)
}

/// Upper-case hexadecimal bytes separated by single spaces.
pub open spec fn spec_format_hex(bytes: Seq<u8>) -> Seq<char>
    decreases bytes.len(),
{
    if bytes.len() == 0 {
        Seq::empty()
    } else if bytes.len() == 1 {
        hex_byte(bytes[0])
    } else {
        spec_format_hex(bytes.drop_last()) + seq![' '] + hex_byte(bytes.last())
    }
}

/// Formats bytes as upper-case hexadecimal pairs separated by spaces.
pub fn format_hex(bytes: &[u8]) -> (text: String)
    ensures
        text@ == spec_format_hex(bytes@),
{
    let mut chars: Vec<char> = Vec::new();
    let mut index: usize = 0;
    while index < bytes.len()
        invariant
            index <= bytes@.len(),
            chars@ == spec_format_hex(bytes@.subrange(0, index as int)),
        decreases bytes@.len() - index,
    {
        let byte = bytes[index];
        if index > 0 {
            chars.push(' ');
        }
        chars.push(hex_digit_char(byte / 16));
        chars.push(hex_digit_char(byte % 16));
        let ghost prefix = bytes@.subrange(0, index + 1);
        assert(prefix.drop_last() =~= bytes@.subrange(0, index as int));
        assert(prefix.last() == byte);
        index = index + 1;
        assert(chars@ =~= spec_format_hex(bytes@.subrange(0, index as int)));
    }
    assert(bytes@.subrange(0, bytes@.len() as int) =~= bytes@);
    string_from_chars(chars.as_slice())
}

} // verus!
