use yang2::context::{Context, LastError};
use yang2::error::{Error, LY_EOTHER, LY_EVALID};

fn recorded(
    errcode: u32,
    msg: Option<&str>,
    path: Option<&str>,
    apptag: Option<&str>,
) -> LastError {
    LastError {
        errcode,
        msg: msg.map(|s| s.to_string()),
        path: path.map(|s| s.to_string()),
        apptag: apptag.map(|s| s.to_string()),
    }
}

#[test]
fn capture_without_failure_returns_sentinel() {
    let ctx = Context::new();
    let e = Error::new(&ctx);
    assert_eq!(e.errcode, LY_EOTHER);
    assert_eq!(e.msg, None);
    assert_eq!(e.path, None);
    assert_eq!(e.apptag, None);
}

#[test]
fn capture_twice_on_unmodified_context_is_equal() {
    let ctx = Context::new();
    let first = Error::new(&ctx);
    let second = Error::new(&ctx);
    assert!(first == second);

    let mut ctx = Context::new();
    ctx.record_error(recorded(LY_EVALID, Some("bad leaf"), Some("/m:a/b"), None));
    let first = Error::new(&ctx);
    let second = Error::new(&ctx);
    assert!(first == second);
}

#[test]
fn capture_copies_every_recorded_field() {
    let mut ctx = Context::new();
    ctx.record_error(recorded(
        LY_EVALID,
        Some("Invalid value"),
        Some("/mod:cont/leaf"),
        Some("must-violation"),
    ));
    let e = Error::new(&ctx);
    assert_eq!(e.errcode, LY_EVALID);
    assert_eq!(e.msg.as_deref(), Some("Invalid value"));
    assert_eq!(e.path.as_deref(), Some("/mod:cont/leaf"));
    assert_eq!(e.apptag.as_deref(), Some("must-violation"));
}

#[test]
fn capture_may_find_only_a_subset_of_fields() {
    let mut ctx = Context::new();
    ctx.record_error(recorded(LY_EVALID, Some("partial"), None, None));
    let e = Error::new(&ctx);
    assert_eq!(e.errcode, LY_EVALID);
    assert_eq!(e.msg.as_deref(), Some("partial"));
    assert_eq!(e.path, None);
    assert_eq!(e.apptag, None);
}

#[test]
fn captured_record_survives_clearing_the_slot() {
    let mut ctx = Context::new();
    ctx.record_error(recorded(LY_EVALID, Some("stale"), Some("/x"), None));
    let e = Error::new(&ctx);

    ctx.clear_error();
    assert!(!ctx.has_error());
    assert_eq!(e.errcode, LY_EVALID);
    assert_eq!(e.msg.as_deref(), Some("stale"));
    assert_eq!(e.path.as_deref(), Some("/x"));

    let after = Error::new(&ctx);
    assert_eq!(after.errcode, LY_EOTHER);
    assert_eq!(after.msg, None);
    assert!(e != after);
}

#[test]
fn captured_record_survives_overwriting_the_slot() {
    let mut ctx = Context::new();
    ctx.record_error(recorded(LY_EVALID, Some("first"), None, None));
    let e = Error::new(&ctx);

    ctx.record_error(recorded(LY_EOTHER, Some("second"), None, None));
    assert_eq!(e.errcode, LY_EVALID);
    assert_eq!(e.msg.as_deref(), Some("first"));

    let later = Error::new(&ctx);
    assert_eq!(later.msg.as_deref(), Some("second"));
}

#[test]
fn records_from_equal_states_compare_equal() {
    let mut a = Context::new();
    let mut b = Context::new();
    a.record_error(recorded(LY_EVALID, Some("m"), Some("/p"), Some("t")));
    b.record_error(recorded(LY_EVALID, Some("m"), Some("/p"), Some("t")));
    assert!(Error::new(&a) == Error::new(&b));
}

#[test]
fn any_single_differing_field_makes_records_unequal() {
    let base = || Error {
        errcode: LY_EVALID,
        msg: Some("m".to_string()),
        path: Some("/p".to_string()),
        apptag: Some("t".to_string()),
    };
    let same = base();
    assert!(base() == same);

    let mut other_code = base();
    other_code.errcode = LY_EOTHER;
    assert!(base() != other_code);

    let mut other_msg = base();
    other_msg.msg = Some("n".to_string());
    assert!(base() != other_msg);

    let mut missing_msg = base();
    missing_msg.msg = None;
    assert!(base() != missing_msg);

    let mut other_path = base();
    other_path.path = Some("/q".to_string());
    assert!(base() != other_path);

    let mut other_apptag = base();
    other_apptag.apptag = None;
    assert!(base() != other_apptag);
}

#[test]
fn display_shows_the_message_when_present() {
    let e = Error {
        errcode: LY_EVALID,
        msg: Some("Invalid leaf value".to_string()),
        path: Some("/mod:x".to_string()),
        apptag: None,
    };
    assert_eq!(e.display(), "Invalid leaf value");
}

#[test]
fn display_falls_back_to_the_code() {
    let e = Error {
        errcode: LY_EVALID,
        msg: None,
        path: None,
        apptag: None,
    };
    assert_eq!(e.display(), "Unknown error: 7");

    let zero = Error {
        errcode: 0,
        msg: None,
        path: None,
        apptag: None,
    };
    assert_eq!(zero.display(), "Unknown error: 0");

    let big = Error {
        errcode: u32::MAX,
        msg: None,
        path: None,
        apptag: None,
    };
    assert_eq!(big.display(), "Unknown error: 4294967295");

    let round = Error {
        errcode: 1200,
        msg: None,
        path: None,
        apptag: None,
    };
    assert_eq!(round.display(), "Unknown error: 1200");
}
