use footpedal::config::Config;
use footpedal::dispatch::{AppTarget, LayoutChoice};
use footpedal::layout::{combine_selection, evaluate_selection, SelectError};

#[test]
fn evaluate_selection_success() {
    assert_eq!(evaluate_selection(true, true, 0), Ok(()));
}

#[test]
fn evaluate_selection_no_sources() {
    assert_eq!(evaluate_selection(false, false, 0), Err(SelectError::NoSources));
    // the source-list check comes first, whatever else was reported
    assert_eq!(evaluate_selection(false, true, -1), Err(SelectError::NoSources));
}

#[test]
fn evaluate_selection_no_match() {
    assert_eq!(evaluate_selection(true, false, 0), Err(SelectError::NoMatch));
}

#[test]
fn evaluate_selection_failed_status() {
    assert_eq!(evaluate_selection(true, true, -50), Err(SelectError::SelectFailed(-50)));
}

/// Fallback: the primary lookup fails, the secondary succeeds, and the
/// overall selection is reported as successful.
#[test]
fn fallback_success_after_primary_failure() {
    let overall = combine_selection(Err(SelectError::NoMatch), Some(Ok(())));
    assert_eq!(overall, Ok(()));
}

#[test]
fn fallback_not_consulted_on_primary_success() {
    assert_eq!(combine_selection(Ok(()), None), Ok(()));
}

#[test]
fn fallback_failure_keeps_secondary_error() {
    let overall = combine_selection(
        Err(SelectError::NoMatch),
        Some(Err(SelectError::SelectFailed(3))),
    );
    assert_eq!(overall, Err(SelectError::SelectFailed(3)));
}

fn sample_config() -> Config {
    Config {
        hold_delay_ms: 250,
        assistant_pause_ms: 25,
        alternate_layout_primary: String::from("layout.alternate"),
        alternate_layout_secondary: String::from("layout.alternate.fallback"),
        default_layout_primary: String::from("layout.default"),
        default_layout_secondary: String::from("layout.default.fallback"),
        browser_app: String::from("Browser"),
        editor_app: String::from("Editor"),
    }
}

#[test]
fn config_layout_identifiers() {
    let cfg = sample_config();
    assert_eq!(cfg.layout_primary_id(LayoutChoice::Alternate), "layout.alternate");
    assert_eq!(cfg.layout_secondary_id(LayoutChoice::Alternate), "layout.alternate.fallback");
    assert_eq!(cfg.layout_primary_id(LayoutChoice::Default), "layout.default");
    assert_eq!(cfg.layout_secondary_id(LayoutChoice::Default), "layout.default.fallback");
}

#[test]
fn config_app_names() {
    let cfg = sample_config();
    assert_eq!(cfg.app_name(AppTarget::Browser), "Browser");
    assert_eq!(cfg.app_name(AppTarget::Editor), "Editor");
}
