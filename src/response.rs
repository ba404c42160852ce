use vstd::prelude::*;

verus! {

/// The result handed back to a caller: a success flag, a status code and an
/// owned message buffer. The receiver releases the buffer exactly once, after
/// it has read the message; after that `message` is `None`.
pub struct Response {
    pub success: bool,
    pub response_code: i32,
    pub message: Option<String>,
}

/// The envelope once its buffer is released: flag and code kept, no buffer.
pub open spec fn released(r: Response) -> Response {
    Response { success: r.success, response_code: r.response_code, message: None }
}

/// The message text that an envelope holds, if its buffer is still there.
pub open spec fn message_text(r: Response) -> Option<Seq<char>> {
    match r.message {
        Some(s) => Some(s@),
        None => None,
    }
}

impl Response {
    /// A successful result with `code` and its own copy of `message`.
    pub fn success(code: i32, message: &str) -> (r: Response)
        ensures
            r.success,
            r.response_code == code,
            message_text(r) == Some(message@),
    {
        Response { success: true, response_code: code, message: Some(message.to_owned()) }
    }

    /// A failed result with `code` and its own copy of `message`.
    pub fn error(code: i32, message: &str) -> (r: Response)
        ensures
            !r.success,
            r.response_code == code,
            message_text(r) == Some(message@),
    {
        Response { success: false, response_code: code, message: Some(message.to_owned()) }
    }

    /// Releases the message buffer and clears the reference to it. Returns
    /// whether there was a buffer to release: a second call finds none and
    /// changes nothing.
    pub fn free_message(&mut self) -> (was_held: bool)
        ensures
            *final(self) == released(*old(self)),
            was_held == old(self).message is Some,
    {
        let was_held = self.message.is_some();
        self.message = None;
        was_held
    }
}

/// Releasing an envelope twice is the same as releasing it once, and the
/// second release finds no buffer.
pub proof fn lemma_release_once(r: Response)
    ensures
        released(released(r)) == released(r),
        released(r).message is None,
        released(r).success == r.success,
        released(r).response_code == r.response_code,
{
}

} // verus!
