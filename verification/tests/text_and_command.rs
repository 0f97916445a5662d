use std::str::FromStr;

use procdash::command::MenuCommand;
use procdash::text::{join_spaces, trim_line, u32_to_string};

#[test]
fn decimal_of_zero() {
    assert_eq!(u32_to_string(0), "0");
}

#[test]
fn decimal_of_single_digit() {
    assert_eq!(u32_to_string(7), "7");
}

#[test]
fn decimal_of_round_number() {
    assert_eq!(u32_to_string(10), "10");
}

#[test]
fn decimal_of_large_numbers() {
    assert_eq!(u32_to_string(65535), "65535");
    assert_eq!(u32_to_string(u32::MAX), "4294967295");
}

#[test]
fn join_of_empty_list() {
    assert_eq!(join_spaces(&Vec::new()), "");
}

#[test]
fn join_of_single_part() {
    assert_eq!(join_spaces(&vec!["pull".to_string()]), "pull");
}

#[test]
fn join_of_several_parts() {
    let parts = vec!["run".to_string(), "dev".to_string(), "--watch".to_string()];
    assert_eq!(join_spaces(&parts), "run dev --watch");
}

#[test]
fn trim_removes_trailing_whitespace() {
    assert_eq!(trim_line("hello world   \r\n".to_string()), "hello world");
    assert_eq!(trim_line("tabbed\t\t".to_string()), "tabbed");
}

#[test]
fn trim_keeps_leading_whitespace() {
    assert_eq!(trim_line("  indented  ".to_string()), "  indented");
    assert_eq!(trim_line("unchanged".to_string()), "unchanged");
}

#[test]
fn command_from_every_tag_name() {
    assert_eq!(MenuCommand::from_name("ComfyRun"), Ok(MenuCommand::ComfyRun));
    assert_eq!(MenuCommand::from_name("ComfyUpdate"), Ok(MenuCommand::ComfyUpdate));
    assert_eq!(MenuCommand::from_name("ComfyKill"), Ok(MenuCommand::ComfyKill));
    assert_eq!(MenuCommand::from_name("CronRun"), Ok(MenuCommand::CronRun));
    assert_eq!(MenuCommand::from_name("CronKill"), Ok(MenuCommand::CronKill));
    assert_eq!(MenuCommand::from_name("Config"), Ok(MenuCommand::Config));
    assert_eq!(MenuCommand::from_name("About"), Ok(MenuCommand::About));
    assert_eq!(MenuCommand::from_name("Exit"), Ok(MenuCommand::Exit));
}

#[test]
fn command_from_unknown_name_is_rejected() {
    assert_eq!(MenuCommand::from_name("comfyrun"), Err(()));
    assert_eq!(MenuCommand::from_name(""), Err(()));
    assert_eq!(MenuCommand::from_name("Quit"), Err(()));
}

#[test]
fn command_parses_through_from_str() {
    assert_eq!(MenuCommand::from_str("CronRun"), Ok(MenuCommand::CronRun));
    assert_eq!("Exit".parse::<MenuCommand>(), Ok(MenuCommand::Exit));
    assert_eq!("nope".parse::<MenuCommand>(), Err(()));
}
