use honeybee::errors::{Error, ErrorKind, OptionExt, ResultExt};

#[test]
fn error_texts() {
    let e = Error::new("Bad color format");
    assert_eq!(e.kind, ErrorKind::Other);
    assert_eq!(e.to_string(), "Bad color format");
    let e = e.with_source("oops".to_string());
    assert_eq!(e.to_string(), "Bad color format. (Source oops)");
    let e = Error { kind: ErrorKind::Configuration, message: None, source: None };
    assert_eq!(e.to_string(), "Error");
    assert_eq!(ErrorKind::Configuration.to_string(), "Configuration error");
    assert_eq!(ErrorKind::Other.to_string(), "Error");
}

#[test]
fn extensions() {
    let none: Option<u8> = None;
    assert_eq!(none.error("No field").unwrap_err().message.as_deref(), Some("No field"));
    assert_eq!(Some(3u8).error("No field").unwrap(), 3);
    let r: Result<u8, Error> = Err(Error::new("inner"));
    let e = r.error("outer").unwrap_err();
    assert_eq!(e.to_string(), "outer. (Source inner)");
    let r: Result<u8, Error> = Ok(1);
    assert_eq!(r.error("outer").unwrap(), 1);
}

#[test]
fn cli_defaults() {
    let a = honeybee::CliArgs::default();
    assert_eq!(a.config_file, "honeybee.toml");
    assert_eq!(a.num_threads, 5);
    assert!(!a.no_colors && !a.run_once);
    assert_eq!(honeybee::timer::Timer::default().period_seconds(), 10);
    assert_eq!(honeybee::timer::Timer::new(3).period_seconds(), 3);
    let _ = honeybee::modules::Module::new();
}

#[test]
fn lazy_messages() {
    let none: Option<u8> = None;
    let e = none.or_error(|| format!("index {} not found", 7)).unwrap_err();
    assert_eq!(e.to_string(), "index 7 not found");
    let mut called = false;
    assert_eq!(Some(2u8).or_error(|| { called = true; String::new() }).unwrap(), 2);
    assert!(!called);
    let r: Result<u8, Error> = Err(Error::new("inner").with_source("io".to_string()));
    let e = r.or_error(|| "outer".to_string()).unwrap_err();
    assert_eq!(e.message.as_deref(), Some("outer"));
    assert_eq!(e.to_string(), "outer. (Source inner. (Source io))");
}

#[test]
fn module_timers() {
    let t = honeybee::timer::Timer::for_module(10, None);
    assert_eq!(t.period_seconds(), 10);
    let t = honeybee::timer::Timer::for_module(10, Some(2));
    assert_eq!(t.period_seconds(), 2);
}
