use auto_gippity::validation::{
    filter_by_verdicts, probe_verdicts, run_validation_stage, should_exclude, ProbeError,
    UrlProbe, PROBE_TIMEOUT_SECS,
};

struct TableProbe {
    calls: usize,
}

impl UrlProbe for TableProbe {
    fn probe_url(&mut self, url: &String, _timeout_secs: u64) -> Result<u16, ProbeError> {
        self.calls += 1;
        match url.as_str() {
            "A" => Ok(200),
            "B" => Ok(404),
            "C" => Ok(200),
            "D" => Err(ProbeError::Timeout),
            "E" => Ok(500),
            _ => Err(ProbeError::Dns),
        }
    }
}

#[test]
fn filtering_drops_explicit_non_200() {
    let mut probe = TableProbe { calls: 0 };
    let urls = vec!["A".to_string(), "B".to_string(), "C".to_string()];
    let r = run_validation_stage(&mut probe, &urls);
    assert_eq!(r, vec!["A".to_string(), "C".to_string()]);
    assert_eq!(probe.calls, 3);
}

#[test]
fn filtering_is_idempotent() {
    let mut probe = TableProbe { calls: 0 };
    let urls = vec!["A".to_string(), "B".to_string(), "C".to_string()];
    let once = run_validation_stage(&mut probe, &urls);
    let twice = run_validation_stage(&mut probe, &once);
    assert_eq!(once, vec!["A".to_string(), "C".to_string()]);
    assert_eq!(twice, once);
}

#[test]
fn probe_error_does_not_exclude() {
    let mut probe = TableProbe { calls: 0 };
    let urls = vec!["D".to_string(), "E".to_string()];
    let r = run_validation_stage(&mut probe, &urls);
    assert_eq!(r, vec!["D".to_string()]);
}

#[test]
fn should_exclude_asymmetry() {
    assert!(!should_exclude(&Ok(200)));
    assert!(should_exclude(&Ok(404)));
    assert!(should_exclude(&Ok(500)));
    assert!(!should_exclude(&Err(ProbeError::Timeout)));
    assert!(!should_exclude(&Err(ProbeError::Dns)));
    assert!(!should_exclude(&Err(ProbeError::ConnectionRefused)));
}

#[test]
fn verdicts_and_filter_preserve_order() {
    let mut probe = TableProbe { calls: 0 };
    let urls = vec!["C".to_string(), "B".to_string(), "A".to_string(), "D".to_string()];
    let keep = probe_verdicts(&mut probe, &urls);
    assert_eq!(keep, vec![true, false, true, true]);
    let r = filter_by_verdicts(&urls, &keep);
    assert_eq!(r, vec!["C".to_string(), "A".to_string(), "D".to_string()]);
    let _ = PROBE_TIMEOUT_SECS;
}
