use anticipate::render::render_int;
use anticipate::Anticipate;
use anticipate::AnticipateErr;
use anticipate::Anticipated;
use anticipate::Render;

#[test]
fn anticipate_result() {
    let val = 12;
    let result: Result<isize, &str> = Ok(val);
    match result.anticipate("not present") {
        Anticipated::Value(v) => assert_eq!(v, val),
        Anticipated::Fatal(_) => panic!("a held value must be returned"),
    }
}

#[test]
fn anticipate_err_result() {
    // Under the extract-the-failure reading this library implements, a
    // success payload is the unexpected case: the verdict is fatal and
    // the diagnostic carries the rendered payload.
    let val = 12;
    let result: Result<isize, &str> = Ok(val);
    match result.anticipate_err("not present") {
        Anticipated::Value(_) => panic!("a success payload must be fatal here"),
        Anticipated::Fatal(d) => {
            assert_eq!(d.line, "not present: 12");
            assert_eq!(d.exit_code, 1);
        }
    }
}

#[test]
fn anticipate_option() {
    let val = 12;
    let result: Option<isize> = Some(val);
    match result.anticipate("not present") {
        Anticipated::Value(v) => assert_eq!(v, val),
        Anticipated::Fatal(_) => panic!("a held value must be returned"),
    }
}

#[test]
fn anticipate_err_option() {
    let val = 12;
    let result: Option<isize> = Some(val);
    match result.anticipate_err("not present") {
        Anticipated::Value(v) => assert_eq!(v, val),
        Anticipated::Fatal(_) => panic!("a held value must be returned"),
    }
}

#[test]
fn absent_option_diagnostic() {
    let container: Option<isize> = None;
    match container.anticipate("missing value") {
        Anticipated::Value(_) => panic!("an absent value must be fatal"),
        Anticipated::Fatal(d) => {
            assert_eq!(d.line, "missing value");
            assert_eq!(d.exit_code, 1);
        }
    }
}

#[test]
fn absent_option_err_diagnostic() {
    let container: Option<isize> = None;
    match container.anticipate_err("missing value") {
        Anticipated::Value(_) => panic!("an absent value must be fatal"),
        Anticipated::Fatal(d) => {
            assert_eq!(d.line, "missing value");
            assert_eq!(d.exit_code, 1);
        }
    }
}

#[test]
fn failed_result_diagnostic() {
    let container: Result<isize, &str> = Err("disk full");
    match container.anticipate("read failed") {
        Anticipated::Value(_) => panic!("a failure must be fatal"),
        Anticipated::Fatal(d) => {
            assert_eq!(d.line, "read failed: disk full");
            assert_eq!(d.exit_code, 1);
        }
    }
}

#[test]
fn failure_extracted() {
    let container: Result<isize, &str> = Err("disk full");
    match container.anticipate_err("read failed") {
        Anticipated::Value(e) => assert_eq!(e, "disk full"),
        Anticipated::Fatal(_) => panic!("a held failure must be returned"),
    }
}

#[test]
fn string_failure_diagnostic() {
    let container: Result<isize, String> = Err(String::from("no such file"));
    match container.anticipate("open failed") {
        Anticipated::Value(_) => panic!("a failure must be fatal"),
        Anticipated::Fatal(d) => {
            assert_eq!(d.line, "open failed: no such file");
            assert_eq!(d.exit_code, 1);
        }
    }
}

#[test]
fn render_small_integers() {
    assert_eq!((0 as isize).render(), "0");
    assert_eq!((7 as isize).render(), "7");
    assert_eq!((12 as isize).render(), "12");
    assert_eq!((-9876 as isize).render(), "-9876");
}

#[test]
fn render_extreme_integers() {
    assert_eq!(isize::MIN.render(), isize::MIN.to_string());
    assert_eq!(isize::MAX.render(), isize::MAX.to_string());
}

#[test]
fn render_int_exact() {
    assert_eq!(render_int(120034), "120034");
    assert_eq!(render_int(-1), "-1");
}

#[test]
fn render_text() {
    assert_eq!("disk full".render(), "disk full");
    assert_eq!(String::from("disk full").render(), "disk full");
    assert_eq!("".render(), "");
}
