//! Capture of the native engine's context-scoped last-error state as an
//! owned, structured error value.
//!
//! The native engine keeps the details of the most recent failed operation
//! in a per-context slot that its next call may overwrite.  [`Error::new`]
//! reads that slot through the [`Context`] value and copies every field out,
//! so the returned record shares no storage with the context and stays valid
//! however the context is used afterwards.

use crate::context::Context;
use vstd::prelude::*;

verus! {

// The engine's error codes are an open integer domain: new codes may appear
// between engine versions, so they are named constants over `u32`, not a
// closed enumeration.

/// Everything was fine.
pub const LY_SUCCESS: u32 = 0;

/// Memory allocation failure.
pub const LY_EMEM: u32 = 1;

/// System call failure.
pub const LY_ESYS: u32 = 2;

/// Invalid value given to the engine.
pub const LY_EINVAL: u32 = 3;

/// Item already exists.
pub const LY_EEXIST: u32 = 4;

/// Item does not exist.
pub const LY_ENOTFOUND: u32 = 5;

/// Internal engine error.
pub const LY_EINT: u32 = 6;

/// Validation failure.
pub const LY_EVALID: u32 = 7;

/// Operation denied.
pub const LY_EDENIED: u32 = 8;

/// Result is incomplete.
pub const LY_EINCOMPLETE: u32 = 9;

/// Compiled schemas must be recompiled.
pub const LY_ERECOMPILE: u32 = 10;

/// Negative result of a check.
pub const LY_ENOT: u32 = 11;

/// Unknown error.  Also what a capture reports when the context has no
/// failure recorded at all: the engine itself leaves the two cases
/// undistinguished, and this layer preserves that.
pub const LY_EOTHER: u32 = 12;

/// Mask marking errors raised by an engine plugin.
pub const LY_EPLUGIN: u32 = 128;

/// The mathematical value of one captured error record: the error code and
/// the three optional texts, each text as a sequence of characters.
#[verifier::ext_equal]
pub ghost struct ErrorView {
    pub errcode: u32,
    pub msg: Option<Seq<char>>,
    pub path: Option<Seq<char>>,
    pub apptag: Option<Seq<char>>,
}

/// The view of an optional owned string.
pub open spec fn opt_str_view(o: Option<String>) -> Option<Seq<char>> {
    match o {
        Option::None => Option::None,
        Option::Some(s) => Option::Some(s@),
    }
}

/// What a capture returns for a given state of the context's last-error
/// slot: the recorded fields verbatim if a failure is recorded, and the
/// "other" sentinel with all optional fields empty if nothing is.
pub open spec fn spec_capture(slot: Option<ErrorView>) -> ErrorView {
    match slot {
        Option::None => ErrorView {
            errcode: LY_EOTHER,
            msg: Option::None,
            path: Option::None,
            apptag: Option::None,
        },
        Option::Some(e) => e,
    }
}

/// One failure captured from the native engine, scoped to the context it was
/// captured from but owning every field: the context's slot may be cleared
/// or overwritten afterwards without affecting this value.
#[derive(Debug)]
pub struct Error {
    pub errcode: u32,
    pub msg: Option<String>,
    pub path: Option<String>,
    pub apptag: Option<String>,
}

impl View for Error {
    type V = ErrorView;

    open spec fn view(&self) -> ErrorView {
        ErrorView {
            errcode: self.errcode,
            msg: opt_str_view(self.msg),
            path: opt_str_view(self.path),
            apptag: opt_str_view(self.apptag),
        }
    }
}

/// Clones an optional string; the clone carries the same characters.
fn clone_opt_string(o: &Option<String>) -> (r: Option<String>)
    ensures
        opt_str_view(r) == opt_str_view(*o),
{
    match o {
        Option::None => Option::None,
        Option::Some(s) => Option::Some(s.clone()),
    }
}

/// Compares two optional strings by their characters.
fn opt_string_eq(a: &Option<String>, b: &Option<String>) -> (r: bool)
    ensures
        r == (opt_str_view(*a) == opt_str_view(*b)),
{
    match a {
        Option::None => match b {
            Option::None => true,
            Option::Some(_) => false,
        },
        Option::Some(x) => match b {
            Option::None => false,
            Option::Some(y) => x.eq(y),
        },
    }
}

impl Error {
    /// Captures the context's current last error as an owned record.
    ///
    /// If the context has no failure recorded, the record carries the
    /// [`LY_EOTHER`] sentinel and empty optional fields; callers must not
    /// read that default alone as a crash signal.  Otherwise every field of
    /// the recorded failure is copied out verbatim.
    pub fn new(ctx: &Context) -> (r: Error)
        ensures
            r@ == spec_capture(ctx@),
    {
        match &ctx.last_error {
            Option::None => Error {
                errcode: LY_EOTHER,
                msg: Option::None,
                path: Option::None,
                apptag: Option::None,
            },
            Option::Some(e) => Error {
                errcode: e.errcode,
                msg: clone_opt_string(&e.msg),
                path: clone_opt_string(&e.path),
                apptag: clone_opt_string(&e.apptag),
            },
        }
    }
}

/// The character for one decimal digit.
pub open spec fn spec_digit_char(d: nat) -> char {
    if d == 0 {
        '0'
    } else if d == 1 {
        '1'
    } else if d == 2 {
        '2'
    } else if d == 3 {
        '3'
    } else if d == 4 {
        '4'
    } else if d == 5 {
        '5'
    } else if d == 6 {
        '6'
    } else if d == 7 {
        '7'
    } else if d == 8 {
        '8'
    } else {
        '9'
    }
}

/// The decimal rendering of a number, most significant digit first, with
/// no leading zeros except for the number zero itself.
pub open spec fn spec_decimal(n: nat) -> Seq<char>
    decreases n,
{
    if n < 10 {
        seq![spec_digit_char(n)]
    } else {
        spec_decimal(n / 10) + seq![spec_digit_char(n % 10)]
    }
}

/// The one-character string for a decimal digit.
fn digit_str(d: u32) -> (s: &'static str)
    requires
        d < 10,
    ensures
        s@ == seq![spec_digit_char(d as nat)],
{
    let s: &'static str = match d {
        0 => "0",
        1 => "1",
        2 => "2",
        3 => "3",
        4 => "4",
        5 => "5",
        6 => "6",
        7 => "7",
        8 => "8",
        _ => "9",
    };
    proof {
        reveal_strlit("0");
        reveal_strlit("1");
        reveal_strlit("2");
        reveal_strlit("3");
        reveal_strlit("4");
        reveal_strlit("5");
        reveal_strlit("6");
        reveal_strlit("7");
        reveal_strlit("8");
        reveal_strlit("9");
        assert(s@ =~= seq![spec_digit_char(d as nat)]);
    }
    s
}

/// Appends the decimal rendering of `n` to `s`.
fn push_decimal(s: &mut String, n: u32)
    ensures
        final(s)@ == old(s)@ + spec_decimal(n as nat),
    decreases n,
{
    if n < 10 {
        s.append(digit_str(n));
    } else {
        push_decimal(s, n / 10);
        s.append(digit_str(n % 10));
        proof {
            assert(final(s)@ =~= old(s)@ + spec_decimal(n as nat));
        }
    }
}

/// The textual rendering of a record: exactly the message when one is
/// present, and a generic label followed by the decimal error code when
/// none is — an error is never unrenderable.
pub open spec fn spec_display(v: ErrorView) -> Seq<char> {
    match v.msg {
        Option::Some(m) => m,
        Option::None => "Unknown error: "@ + spec_decimal(v.errcode as nat),
    }
}

impl Error {
    /// Renders the record as text: the base message if the engine supplied
    /// one, otherwise a generic label with the raw error code.
    pub fn display(&self) -> (r: String)
        ensures
            r@ == spec_display(self@),
    {
        match &self.msg {
            Option::Some(m) => m.clone(),
            Option::None => {
                let mut s = "Unknown error: ".to_owned();
                push_decimal(&mut s, self.errcode);
                s
            },
        }
    }
}

impl PartialEq for Error {
    /// Records are equal exactly when code, message, path and apptag all are.
    fn eq(&self, other: &Error) -> (r: bool) {
        let r = self.errcode == other.errcode && opt_string_eq(&self.msg, &other.msg)
            && opt_string_eq(&self.path, &other.path)
            && opt_string_eq(&self.apptag, &other.apptag);
        proof {
            if r {
                assert(self@ =~= other@);
            }
        }
        r
    }
}

impl vstd::std_specs::cmp::PartialEqSpecImpl for Error {
    open spec fn obeys_eq_spec() -> bool {
        true
    }

    open spec fn eq_spec(&self, other: &Error) -> bool {
        self@ == other@
    }
}

impl Eq for Error {}

/// Two records compare equal exactly when all four fields are equal; a
/// single differing field makes them unequal.
pub proof fn lemma_record_equality(a: ErrorView, b: ErrorView)
    ensures
        (a == b) <==> (a.errcode == b.errcode && a.msg == b.msg && a.path == b.path && a.apptag
            == b.apptag),
{
    if a.errcode == b.errcode && a.msg == b.msg && a.path == b.path && a.apptag == b.apptag {
        assert(a =~= b);
    }
}

/// Capturing twice from one unmodified context slot yields equal records:
/// the capture is a function of the slot alone.
pub proof fn lemma_capture_repeatable(slot: Option<ErrorView>, r1: ErrorView, r2: ErrorView)
    requires
        r1 == spec_capture(slot),
        r2 == spec_capture(slot),
    ensures
        r1 == r2,
{
}

} // verus!
