use crate::logic::{enqueue_spec, process_spec, shutdown_spec, LogicProcessor, Outbound};
use crate::network::Network;
use crate::response::{message_text, released, Response};
use vstd::prelude::*;
use vstd::utf8::{decode_utf8, valid_utf8};

verus! {

/// The text that a byte string decodes to as UTF-8, or `None` when the bytes
/// are not valid UTF-8.
pub open spec fn utf8_text(b: Seq<u8>) -> Option<Seq<char>> {
    if valid_utf8(b) {
        Some(decode_utf8(b))
    } else {
        None
    }
}

/// Relies on `std::str::from_utf8`: the text of the bytes when they are valid
/// UTF-8, an error otherwise.
#[verifier::external_body]
fn text_of_bytes(b: &[u8]) -> (r: Option<&str>)
    ensures
        r is Some ==> utf8_text(b@) == Some(r.unwrap()@),
        r is None ==> utf8_text(b@) is None,
{
    std::str::from_utf8(b).ok()
}

/// The status code of a result that reports bad input.
pub const BAD_INPUT: i32 = 400;

/// Creates a processor for the delivery capability behind `network_handle`;
/// a zero handle binds none, which is no error.
pub fn logic_processor_new(network_handle: usize) -> (p: LogicProcessor)
    ensures
        p@.processed == 0,
        p@.next_id == 1,
        p@.pending.len() == 0,
        p@.running,
        network_handle == 0 ==> p@.network is None,
        network_handle != 0 ==> p@.network == Some(network_handle),
{
    if network_handle == 0 {
        LogicProcessor::new(None)
    } else {
        LogicProcessor::new(Some(Network { handle: network_handle }))
    }
}

/// Stops the worker of the processor behind the handle; an absent handle is
/// a no-op. The caller then waits one backoff interval and reclaims it.
pub fn logic_processor_free(processor: Option<&mut LogicProcessor>)
    ensures
        processor is Some ==> final(processor.unwrap())@ == shutdown_spec(
            processor.unwrap()@,
        ),
{
    match processor {
        Some(p) => p.shutdown(),
        None => {},
    }
}

/// Validates a synchronous request at the boundary. An absent processor or
/// message gives an error result with code 400, and so do bytes that are not
/// valid UTF-8; neither touches the processor. Otherwise the message is taken
/// up, and what goes to the delivery capability is returned.
pub fn logic_processor_process(
    processor: Option<&mut LogicProcessor>,
    message: Option<&[u8]>,
) -> (r: Result<Outbound, Response>)
    ensures
        (processor is None || message is None) ==> (r matches Err(e) && !e.success
            && e.response_code == 400 && message_text(e) == Some("Invalid pointer"@)),
        processor is Some && message is None ==> final(processor.unwrap())@
            == processor.unwrap()@,
        processor is Some && message is Some && utf8_text(message.unwrap()@) is None ==> (r matches Err(
            e,
        ) && !e.success && e.response_code == 400 && message_text(e) == Some(
            "Invalid UTF-8 string"@,
        ) && final(processor.unwrap())@ == processor.unwrap()@),
        processor is Some && message is Some && utf8_text(message.unwrap()@) is Some ==> (r matches Ok(
            o,
        ) && o.content@ == utf8_text(message.unwrap()@).unwrap() && o.id == 0 && o.count
            == final(processor.unwrap())@.processed && final(processor.unwrap())@ == process_spec(
            processor.unwrap()@,
        )),
{
    match processor {
        None => Err(Response::error(BAD_INPUT, "Invalid pointer")),
        Some(p) => match message {
            None => Err(Response::error(BAD_INPUT, "Invalid pointer")),
            Some(b) => match text_of_bytes(b) {
                None => Err(Response::error(BAD_INPUT, "Invalid UTF-8 string")),
                Some(text) => Ok(p.begin_process(text)),
            },
        },
    }
}

/// Queues a message at the boundary and returns its id. Nothing is queued,
/// and the result is `None`, when the processor or message is absent, the
/// bytes are not valid UTF-8, or the id space is used up; the caller hears
/// nothing more of the message either way.
pub fn logic_processor_queue(
    processor: Option<&mut LogicProcessor>,
    message: Option<&[u8]>,
) -> (r: Option<usize>)
    ensures
        (processor is None || message is None) ==> r is None,
        processor is Some && message is None ==> final(processor.unwrap())@
            == processor.unwrap()@,
        processor is Some && message is Some && utf8_text(message.unwrap()@) is None ==> (r is None
            && final(processor.unwrap())@ == processor.unwrap()@),
        processor is Some && message is Some && utf8_text(message.unwrap()@) is Some
            && processor.unwrap()@.next_id < usize::MAX ==> (r == Some(processor.unwrap()@.next_id)
            && final(processor.unwrap())@ == enqueue_spec(
            processor.unwrap()@,
            utf8_text(message.unwrap()@).unwrap(),
        )),
        processor is Some && message is Some && processor.unwrap()@.next_id == usize::MAX ==> (r
            is None && final(processor.unwrap())@ == processor.unwrap()@),
{
    match processor {
        None => None,
        Some(p) => match message {
            None => None,
            Some(b) => match text_of_bytes(b) {
                None => None,
                Some(text) => p.queue_message(text),
            },
        },
    }
}

/// Releases the message buffer of the result behind the handle; an absent
/// handle, or a result released already, is a no-op. Returns whether a buffer
/// was released.
pub fn free_response(response: Option<&mut Response>) -> (was_held: bool)
    ensures
        response is None ==> !was_held,
        response is Some ==> *final(response.unwrap()) == released(*response.unwrap())
            && was_held == response.unwrap().message is Some,
{
    match response {
        Some(r) => r.free_message(),
        None => false,
    }
}

} // verus!
