use scraping_wrapper::driver::Driver;
use scraping_wrapper::errors::{DriverError, ErrorKind};
use scraping_wrapper::operations::{Operation, OperationMethod, ScrapeOption};
use scraping_wrapper::retry::Sleeper;
use scraping_wrapper::wrapper::{alert_script, text_query_xpath, ScrapingWrapper};

#[derive(Clone, Debug, PartialEq)]
struct FakeElem {
    id: usize,
}

/// A fake page model: selectors and xpaths resolve to element ids, typing
/// records values, and every driver call is logged in order.
#[derive(Default)]
struct FakeDriver {
    selectors: Vec<(String, usize)>,
    xpaths: Vec<(String, usize)>,
    texts: Vec<(usize, String)>,
    values: Vec<(usize, String)>,
    log: Vec<String>,
    sleeps: Vec<u64>,
    fail_navigate: bool,
}

impl Sleeper for FakeDriver {
    fn pause(&mut self, secs: u64) {
        self.sleeps.push(secs);
        self.log.push(format!("pause {}", secs));
    }
}

impl Driver for FakeDriver {
    type Elem = FakeElem;

    fn navigate(&mut self, url: &str) -> Result<(), DriverError> {
        self.log.push(format!("navigate {}", url));
        if self.fail_navigate {
            Err(DriverError::new("navigation refused".to_string()))
        } else {
            Ok(())
        }
    }

    fn wait_until_navigated(&mut self) -> Result<(), DriverError> {
        self.log.push("wait_until_navigated".to_string());
        Ok(())
    }

    fn evaluate(&mut self, script: &str, await_promise: bool) -> Result<(), DriverError> {
        self.log.push(format!("evaluate {} {}", script, await_promise));
        Ok(())
    }

    fn query_selector(&mut self, selector: &str, timeout_secs: u64) -> Result<FakeElem, DriverError> {
        self.log.push(format!("query_selector {} {}", selector, timeout_secs));
        match self.selectors.iter().find(|(s, _)| s == selector) {
            Some((_, id)) => Ok(FakeElem { id: *id }),
            None => Err(DriverError::new("no matching element".to_string())),
        }
    }

    fn query_xpath(&mut self, xpath: &str, timeout_secs: u64) -> Result<FakeElem, DriverError> {
        self.log.push(format!("query_xpath {} {}", xpath, timeout_secs));
        match self.xpaths.iter().find(|(x, _)| x == xpath) {
            Some((_, id)) => Ok(FakeElem { id: *id }),
            None => Err(DriverError::new("no matching node".to_string())),
        }
    }

    fn scroll_into_view(&mut self, elem: &FakeElem) -> Result<(), DriverError> {
        self.log.push(format!("scroll_into_view {}", elem.id));
        Ok(())
    }

    fn click(&mut self, elem: &FakeElem) -> Result<(), DriverError> {
        self.log.push(format!("click {}", elem.id));
        Ok(())
    }

    fn type_text(&mut self, elem: &FakeElem, text: &str) -> Result<(), DriverError> {
        self.log.push(format!("type_text {} {}", elem.id, text));
        self.values.retain(|(id, _)| *id != elem.id);
        self.values.push((elem.id, text.to_string()));
        Ok(())
    }

    fn inner_text(&mut self, elem: &FakeElem) -> Result<String, DriverError> {
        self.log.push(format!("inner_text {}", elem.id));
        match self.texts.iter().find(|(id, _)| *id == elem.id) {
            Some((_, t)) => Ok(t.clone()),
            None => Err(DriverError::new("no text".to_string())),
        }
    }

    fn close_tab(&mut self) -> Result<(), DriverError> {
        self.log.push("close_tab".to_string());
        Ok(())
    }
}

fn options_with(defs: Vec<(&str, &str)>) -> ScrapeOption {
    ScrapeOption {
        dom_defs: Some(
            defs.into_iter().map(|(n, s)| (n.to_string(), s.to_string())).collect(),
        ),
        headless: Some(true),
        window_size: None,
        port_number: None,
    }
}

#[test]
fn by_name_on_an_unregistered_name_fails_without_any_driver_call() {
    let mut wrapper = ScrapingWrapper::new(FakeDriver::default(), options_with(vec![]));
    let err = wrapper.get_dom("missing").unwrap_err();
    assert_eq!(err.kind, ErrorKind::Lookup);
    let driver = wrapper.into_driver();
    assert!(driver.log.is_empty());
    assert!(driver.sleeps.is_empty());
}

#[test]
fn by_name_resolves_and_scrolls_a_registered_name() {
    let mut driver = FakeDriver::default();
    driver.selectors.push(("input[name=q]".to_string(), 7));
    let mut wrapper = ScrapingWrapper::new(driver, options_with(vec![("q", "input[name=q]")]));
    let elem = wrapper.get_dom("q").unwrap();
    assert_eq!(elem, FakeElem { id: 7 });
    let driver = wrapper.into_driver();
    assert_eq!(driver.log, vec!["query_selector input[name=q] 1", "scroll_into_view 7"]);
}

#[test]
fn by_name_exhausts_the_policy_when_no_element_appears() {
    let mut wrapper =
        ScrapingWrapper::new(FakeDriver::default(), options_with(vec![("q", "input[name=q]")]));
    let err = wrapper.get_dom("q").unwrap_err();
    assert_eq!(err.kind, ErrorKind::NotFound);
    let driver = wrapper.into_driver();
    let queries = driver.log.iter().filter(|l| l.starts_with("query_selector")).count();
    assert_eq!(queries, 5);
    assert_eq!(driver.sleeps, vec![2, 2, 2, 2]);
}

#[test]
fn by_text_builds_the_exact_locator() {
    assert_eq!(
        text_query_xpath("Result", Some("h3"), Some(2)),
        "(//h3[normalize-space(text())='Result'])[2]"
    );
    assert_eq!(
        text_query_xpath("Result", None, None),
        "(//*[normalize-space(text())='Result'])[1]"
    );
}

#[test]
fn by_text_returns_the_second_of_three_matches() {
    let mut driver = FakeDriver::default();
    driver.xpaths.push(("(//h3[normalize-space(text())='Result'])[1]".to_string(), 1));
    driver.xpaths.push(("(//h3[normalize-space(text())='Result'])[2]".to_string(), 2));
    driver.xpaths.push(("(//h3[normalize-space(text())='Result'])[3]".to_string(), 3));
    let mut wrapper = ScrapingWrapper::new(driver, options_with(vec![]));
    let elem = wrapper.get_dom_by_text("Result", Some("h3"), Some(2)).unwrap();
    assert_eq!(elem, FakeElem { id: 2 });
}

#[test]
fn by_text_with_an_index_beyond_the_matches_exhausts_and_fails() {
    let mut driver = FakeDriver::default();
    driver.xpaths.push(("(//h3[normalize-space(text())='Result'])[1]".to_string(), 1));
    driver.xpaths.push(("(//h3[normalize-space(text())='Result'])[2]".to_string(), 2));
    driver.xpaths.push(("(//h3[normalize-space(text())='Result'])[3]".to_string(), 3));
    let mut wrapper = ScrapingWrapper::new(driver, options_with(vec![]));
    let err = wrapper.get_dom_by_text("Result", Some("h3"), Some(5)).unwrap_err();
    assert_eq!(err.kind, ErrorKind::NotFound);
    let driver = wrapper.into_driver();
    let queries = driver.log.iter().filter(|l| l.starts_with("query_xpath")).count();
    assert_eq!(queries, 5);
    assert_eq!(driver.sleeps, vec![2, 2, 2, 2]);
}

#[test]
fn navigation_failure_is_retried_then_reported_as_interaction() {
    let mut driver = FakeDriver::default();
    driver.fail_navigate = true;
    let mut wrapper = ScrapingWrapper::new(driver, options_with(vec![]));
    let err = wrapper.go("https://example.test/").unwrap_err();
    assert_eq!(err.kind, ErrorKind::Interaction);
    let driver = wrapper.into_driver();
    let navigations = driver.log.iter().filter(|l| l.starts_with("navigate")).count();
    assert_eq!(navigations, 5);
    assert_eq!(driver.sleeps, vec![2, 2, 2, 2]);
}

#[test]
fn sequence_aborts_at_the_fill_step_keeping_the_navigation() {
    let mut wrapper = ScrapingWrapper::new(FakeDriver::default(), options_with(vec![]));
    let operations = vec![
        Operation {
            method: OperationMethod::Go,
            target: "https://example.test/".to_string(),
            content: None,
        },
        Operation {
            method: OperationMethod::Fill,
            target: "missing".to_string(),
            content: Some("x".to_string()),
        },
    ];
    let err = wrapper.operate(operations).unwrap_err();
    assert_eq!(err.kind, ErrorKind::Lookup);
    let driver = wrapper.into_driver();
    assert_eq!(driver.log[0], "navigate https://example.test/");
    assert_eq!(driver.log[1], "wait_until_navigated");
    assert!(driver.log.iter().all(|l| !l.starts_with("query_selector")));
    assert!(driver.log.iter().all(|l| !l.starts_with("type_text")));
}

#[test]
fn a_fill_without_content_is_a_silent_no_op() {
    let mut wrapper = ScrapingWrapper::new(FakeDriver::default(), options_with(vec![]));
    let operations = vec![Operation {
        method: OperationMethod::Fill,
        target: "missing".to_string(),
        content: None,
    }];
    wrapper.operate(operations).unwrap();
    let driver = wrapper.into_driver();
    assert!(driver.log.is_empty());
}

#[test]
fn end_to_end_fill_then_click_awaits_navigation() {
    let mut driver = FakeDriver::default();
    driver.selectors.push(("input[name=q]".to_string(), 7));
    let mut wrapper = ScrapingWrapper::new(driver, options_with(vec![("q", "input[name=q]")]));
    let operations = vec![
        Operation {
            method: OperationMethod::Go,
            target: "https://example.test/".to_string(),
            content: None,
        },
        Operation {
            method: OperationMethod::Fill,
            target: "q".to_string(),
            content: Some("hello".to_string()),
        },
        Operation { method: OperationMethod::Click, target: "q".to_string(), content: None },
    ];
    wrapper.operate(operations).unwrap();
    let driver = wrapper.into_driver();
    assert_eq!(driver.values, vec![(7, "hello".to_string())]);
    let click_at = driver.log.iter().position(|l| l == "click 7").unwrap();
    let settle = &driver.log[click_at + 1];
    let awaited = &driver.log[click_at + 2];
    assert_eq!(settle, "pause 1");
    assert_eq!(awaited, "wait_until_navigated");
}

#[test]
fn inner_text_comes_from_the_resolved_element() {
    let mut driver = FakeDriver::default();
    driver.selectors.push(("h3".to_string(), 3));
    driver.texts.push((3, "first result".to_string()));
    let mut wrapper = ScrapingWrapper::new(driver, options_with(vec![("first_result", "h3")]));
    assert_eq!(wrapper.get_inner_text("first_result").unwrap(), "first result");
    let err = wrapper.get_inner_text("missing").unwrap_err();
    assert_eq!(err.kind, ErrorKind::Lookup);
}

#[test]
fn a_failed_text_read_keeps_its_interaction_classification() {
    let mut driver = FakeDriver::default();
    driver.selectors.push(("h3".to_string(), 3));
    let mut wrapper = ScrapingWrapper::new(driver, options_with(vec![("first_result", "h3")]));
    let err = wrapper.get_inner_text("first_result").unwrap_err();
    assert_eq!(err.kind, ErrorKind::Interaction);
    assert_eq!(err.message, "no text");
}

#[test]
fn the_dialog_is_dispatched_through_script_evaluation() {
    let mut wrapper = ScrapingWrapper::new(FakeDriver::default(), options_with(vec![]));
    wrapper.show_dialog_and_wait(Some("done?")).unwrap();
    wrapper.show_dialog_and_wait(None).unwrap();
    let driver = wrapper.into_driver();
    assert_eq!(driver.log[0], "evaluate alert('done?'); true");
    assert_eq!(driver.log[1], "evaluate alert('Press OK to continue.'); true");
    assert_eq!(alert_script("hi"), "alert('hi');");
}

#[test]
fn close_tab_closes_only_the_tab() {
    let mut wrapper = ScrapingWrapper::new(FakeDriver::default(), options_with(vec![]));
    wrapper.close_tab().unwrap();
    let driver = wrapper.into_driver();
    assert_eq!(driver.log, vec!["close_tab"]);
}

#[test]
fn an_empty_sequence_succeeds_at_once() {
    let mut wrapper = ScrapingWrapper::new(FakeDriver::default(), options_with(vec![]));
    wrapper.operate(Vec::new()).unwrap();
    let driver = wrapper.into_driver();
    assert!(driver.log.is_empty());
}

#[test]
fn a_click_on_an_unregistered_name_aborts_with_lookup() {
    let mut wrapper = ScrapingWrapper::new(FakeDriver::default(), options_with(vec![]));
    let operations = vec![Operation {
        method: OperationMethod::Click,
        target: "missing".to_string(),
        content: None,
    }];
    let err = wrapper.operate(operations).unwrap_err();
    assert_eq!(err.kind, ErrorKind::Lookup);
    let driver = wrapper.into_driver();
    assert!(driver.log.is_empty());
}

#[test]
fn a_full_session_against_a_fake_page() {
    let mut driver = FakeDriver::default();
    driver.selectors.push(("[title=search]".to_string(), 1));
    driver.selectors.push(("[value=submit]".to_string(), 2));
    driver.selectors.push(("h3".to_string(), 3));
    driver.texts.push((3, "sample text result".to_string()));
    let mut wrapper = ScrapingWrapper::new(
        FakeDriver { ..driver },
        options_with(vec![
            ("search_text_area", "[title=search]"),
            ("search_button", "[value=submit]"),
            ("first_result", "h3"),
        ]),
    );
    let operations = vec![
        Operation {
            method: OperationMethod::Go,
            target: "https://example.test/".to_string(),
            content: None,
        },
        Operation {
            method: OperationMethod::Fill,
            target: "search_text_area".to_string(),
            content: Some("sample text".to_string()),
        },
        Operation {
            method: OperationMethod::Click,
            target: "search_button".to_string(),
            content: None,
        },
    ];
    wrapper.operate(operations).unwrap();
    let first_result = wrapper.get_inner_text("first_result").unwrap();
    assert_eq!(first_result, "sample text result");
    let driver = wrapper.into_driver();
    assert_eq!(driver.values, vec![(1, "sample text".to_string())]);
}
