use crate::enums::{ByteOrder, CoordDimensions};
use crate::error::{is_generic_error, is_geos_error, opt_text, Error, GResult};
use crate::functions::errcheck;
use vstd::prelude::*;

verus! {

/// The last message that a GEOS context reported on one channel (errors or
/// notices), kept until someone takes it.
pub struct InnerContext {
    last: Option<String>,
}

impl View for InnerContext {
    type V = Option<Seq<char>>;

    closed spec fn view(&self) -> Option<Seq<char>> {
        opt_text(self.last)
    }
}

impl InnerContext {
    /// A channel on which nothing has been reported yet.
    pub fn new() -> (res: Self)
        ensures
            res@ == None::<Seq<char>>,
    {
        InnerContext { last: None }
    }

    /// Records a message that GEOS reported: it becomes the last one,
    /// replacing any that was not taken.
    pub fn record(&mut self, message: String)
        ensures
            final(self)@ == Some(message@),
    {
        self.last = Some(message);
    }

    /// Removes and returns the last message.
    pub fn take(&mut self) -> (res: Option<String>)
        ensures
            opt_text(res) == old(self)@,
            final(self)@ == None::<Seq<char>>,
    {
        let res = self.last.take();
        res
    }
}

/// The message state of a GEOS context: the last error and the last notice
/// that it reported.
pub struct ContextHandle {
    pub(crate) notice_ctx: InnerContext,
    pub(crate) error_ctx: InnerContext,
}

/// What a context holds, seen from outside: the last error and the last
/// notice, each until it is taken.
pub struct ContextMessages {
    pub last_error: Option<Seq<char>>,
    pub last_notification: Option<Seq<char>>,
}

impl View for ContextHandle {
    type V = ContextMessages;

    closed spec fn view(&self) -> ContextMessages {
        ContextMessages { last_error: self.error_ctx@, last_notification: self.notice_ctx@ }
    }
}

/// The state after GEOS reported the error `message` in state `s`.
pub open spec fn after_error(s: ContextMessages, message: Seq<char>) -> ContextMessages {
    ContextMessages { last_error: Some(message), ..s }
}

/// The state after GEOS reported the notice `message` in state `s`.
pub open spec fn after_notice(s: ContextMessages, message: Seq<char>) -> ContextMessages {
    ContextMessages { last_notification: Some(message), ..s }
}

/// The state after the last error was taken from state `s`.
pub open spec fn after_taking_error(s: ContextMessages) -> ContextMessages {
    ContextMessages { last_error: None, ..s }
}

/// The state after the last notice was taken from state `s`.
pub open spec fn after_taking_notice(s: ContextMessages) -> ContextMessages {
    ContextMessages { last_notification: None, ..s }
}

impl ContextHandle {
    /// The state of a new context, given whether `GEOS_init_r` gave one: a
    /// context on which nothing has been reported yet, or, when GEOS gave
    /// none, a `GeosError` for `GEOS_init_r` without message.
    pub fn init(geos_context_created: bool) -> (res: GResult<Self>)
        ensures
            geos_context_created ==> (res matches Ok(c) && c@ == (ContextMessages {
                last_error: None,
                last_notification: None,
            })),
            !geos_context_created ==> is_geos_error(res, "GEOS_init_r"@, None),
    {
        if !geos_context_created {
            return Err(Error::GeosError(("GEOS_init_r", None)));
        }
        Ok(ContextHandle { notice_ctx: InnerContext::new(), error_ctx: InnerContext::new() })
    }

    /// Records an error message reported by GEOS.
    pub fn report_error(&mut self, message: String)
        ensures
            final(self)@ == after_error(old(self)@, message@),
    {
        self.error_ctx.record(message);
    }

    /// Records a notice reported by GEOS.
    pub fn report_notice(&mut self, message: String)
        ensures
            final(self)@ == after_notice(old(self)@, message@),
    {
        self.notice_ctx.record(message);
    }

    /// Returns the last error encountered, and removes it.
    pub fn get_last_error(&mut self) -> (res: Option<String>)
        ensures
            opt_text(res) == old(self)@.last_error,
            final(self)@ == after_taking_error(old(self)@),
    {
        self.error_ctx.take()
    }

    /// Returns the last notification encountered, and removes it.
    pub fn get_last_notification(&mut self) -> (res: Option<String>)
        ensures
            opt_text(res) == old(self)@.last_notification,
            final(self)@ == after_taking_notice(old(self)@),
    {
        self.notice_ctx.take()
    }
}

impl ContextHandle {
    /// The WKB output dimensions that GEOS reported as `out` from the
    /// function `func` (`GEOS_getWKBOutputDims_r`, or
    /// `GEOS_setWKBOutputDims_r`, which returns the previous setting);
    /// -1 is their error value.
    pub fn wkb_output_dimensions(&mut self, out: i32, func: &'static str) -> (res: GResult<
        CoordDimensions,
    >)
        ensures
            out == -1 ==> is_geos_error(res, func@, old(self)@.last_error) && final(self)@
                == after_taking_error(old(self)@),
            out != -1 ==> final(self)@ == old(self)@ && match CoordDimensions::from_code(
                out as int,
            ) {
                Some(d) => res == Ok::<CoordDimensions, Error>(d),
                None => is_generic_error(res, "dimensions must be 2, 3 or 4"@),
            },
    {
        let out = errcheck(out, -1, func, self)?;
        CoordDimensions::try_from(out)
    }

    /// The WKB byte order that GEOS reported as `out` from the function
    /// `func` (`GEOS_getWKBByteOrder_r`, or `GEOS_setWKBByteOrder_r`, which
    /// returns the previous setting); -1 is their error value.
    pub fn wkb_byte_order(&mut self, out: i32, func: &'static str) -> (res: GResult<ByteOrder>)
        ensures
            out == -1 ==> is_geos_error(res, func@, old(self)@.last_error) && final(self)@
                == after_taking_error(old(self)@),
            out != -1 ==> final(self)@ == old(self)@ && res == Ok::<ByteOrder, Error>(
                if out == 0 {
                    ByteOrder::BigEndian
                } else {
                    ByteOrder::LittleEndian
                },
            ),
    {
        let out = errcheck(out, -1, func, self)?;
        ByteOrder::try_from(out)
    }
}

/// Taking the last error gives back the message that was reported last,
/// and taking it again gives nothing; notices are left as they were.
pub proof fn taking_returns_the_reported_error(s: ContextMessages, message: Seq<char>)
    ensures
        after_error(s, message).last_error == Some(message),
        after_taking_error(after_error(s, message)).last_error == None::<Seq<char>>,
        after_taking_error(after_error(s, message)).last_notification == s.last_notification,
        after_error(after_error(s, message), message).last_error == Some(message),
{
}

/// Taking the last notice gives back the notice that was reported last,
/// and taking it again gives nothing; errors are left as they were.
pub proof fn taking_returns_the_reported_notice(s: ContextMessages, message: Seq<char>)
    ensures
        after_notice(s, message).last_notification == Some(message),
        after_taking_notice(after_notice(s, message)).last_notification == None::<Seq<char>>,
        after_taking_notice(after_notice(s, message)).last_error == s.last_error,
{
}

} // verus!
