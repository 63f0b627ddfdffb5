use log::LevelFilter;
use simplelog::{ColorChoice, TerminalMode};
use logsetup::{plan_sinks, LogConfig, LogLevel, SinkPlan, TermLogConfig, WriteLogConfig};

fn term(level: LogLevel) -> LogConfig {
    LogConfig {
        term_logger: Some(TermLogConfig { log_level: level }),
        write_logger: None,
    }
}

fn file(level: LogLevel, path: &str) -> LogConfig {
    LogConfig {
        term_logger: None,
        write_logger: Some(WriteLogConfig { log_level: level, path: path.to_string() }),
    }
}

#[test]
fn empty_profiles_give_no_sinks() {
    let plan = plan_sinks(&Vec::new());
    assert!(plan.is_empty());
}

#[test]
fn profile_with_neither_gives_no_sinks() {
    let cfg = vec![LogConfig { term_logger: None, write_logger: None }];
    assert!(plan_sinks(&cfg).is_empty());
}

#[test]
fn one_terminal_profile_keeps_its_threshold() {
    let plan = plan_sinks(&vec![term(LogLevel::Info)]);
    assert_eq!(plan.len(), 1);
    match &plan[0] {
        SinkPlan::Terminal { level, mode, color } => {
            assert_eq!(*level, LevelFilter::Info);
            assert_eq!(*mode, TerminalMode::Mixed);
            assert_eq!(*color, ColorChoice::Auto);
        }
        other => panic!("unexpected sink {:?}", other),
    }
}

#[test]
fn terminal_then_file_profiles_keep_order() {
    let plan = plan_sinks(&vec![term(LogLevel::Warn), file(LogLevel::Debug, "/tmp/app.log")]);
    assert_eq!(plan.len(), 2);
    match &plan[0] {
        SinkPlan::Terminal { level, mode, color } => {
            assert_eq!(*level, LevelFilter::Warn);
            assert_eq!(*mode, TerminalMode::Mixed);
            assert_eq!(*color, ColorChoice::Auto);
        }
        other => panic!("unexpected sink {:?}", other),
    }
    match &plan[1] {
        SinkPlan::File { level, path } => {
            assert_eq!(*level, LevelFilter::Debug);
            assert_eq!(path, "/tmp/app.log");
        }
        other => panic!("unexpected sink {:?}", other),
    }
}

#[test]
fn both_sinks_of_one_profile_terminal_first() {
    let cfg = vec![LogConfig {
        term_logger: Some(TermLogConfig { log_level: LogLevel::Error }),
        write_logger: Some(WriteLogConfig { log_level: LogLevel::Trace, path: "x.log".to_string() }),
    }];
    let plan = plan_sinks(&cfg);
    assert_eq!(plan.len(), 2);
    assert!(matches!(plan[0], SinkPlan::Terminal { level: LevelFilter::Error, mode: TerminalMode::Mixed, color: ColorChoice::Auto }));
    assert!(matches!(&plan[1], SinkPlan::File { level: LevelFilter::Trace, path } if path == "x.log"));
}

#[test]
fn off_threshold_is_kept_as_off_filter() {
    let plan = plan_sinks(&vec![file(LogLevel::Off, "quiet.log"), term(LogLevel::Off)]);
    assert_eq!(plan.len(), 2);
    assert!(matches!(&plan[0], SinkPlan::File { level: LevelFilter::Off, path } if path == "quiet.log"));
    assert!(matches!(plan[1], SinkPlan::Terminal { level: LevelFilter::Off, mode: TerminalMode::Mixed, color: ColorChoice::Auto }));
}

#[test]
fn time_format_is_day_month_year() {
    assert_eq!(logsetup::TIME_FORMAT, "[%d.%m.%Y %H:%M:%S]");
}
