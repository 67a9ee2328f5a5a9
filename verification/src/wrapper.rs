use vstd::prelude::*;
use vstd::string::StringExecFns;

use crate::driver::Driver;
use crate::errors::{ErrorKind, ScrapeError};
use crate::operations::{op_requires_lookup, Operation, OperationMethod, ScrapeOption};
use crate::registry::{map_of, ElementRegistry};
use crate::retry::{retry, RetryAction};
use crate::text::{dec_int, i64_to_string};

verus! {

/// The attempt budget applied uniformly to every driver interaction.
pub const RETRY_ATTEMPTS: u8 = 5;

/// The fixed delay, in seconds, slept between attempts; never grown.
pub const RETRY_DELAY_SECS: u64 = 2;

/// How long, in seconds, one attempt waits for a matching element.
pub const ELEMENT_WAIT_SECS: u64 = 1;

/// The fixed settle delay, in seconds, after a click.
pub const CLICK_SETTLE_SECS: u64 = 1;

/// The XPath locator selecting the `index`-th node (1-based, document
/// order) of `tag` whose normalized text content equals `text`.
pub open spec fn text_xpath_spec(text: Seq<char>, tag: Seq<char>, index: int) -> Seq<char> {
    "(//"@ + tag + "[normalize-space(text())='"@ + text + "'])["@ + dec_int(index) + "]"@
}

/// Build the locator for a text/tag/index query; the tag defaults to any
/// (`*`), the position to the first match.
pub fn text_query_xpath(search_text: &str, tag_name: Option<&str>, index: Option<i8>) -> (r:
    String)
    ensures
        r@ == text_xpath_spec(
            search_text@,
            match tag_name {
                Some(t) => t@,
                None => "*"@,
            },
            match index {
                Some(i) => i as int,
                None => 1int,
            },
        ),
{
    let tag: &str = match tag_name {
        Some(t) => t,
        None => "*",
    };
    let idx: i8 = match index {
        Some(i) => i,
        None => 1,
    };
    let mut r: String = "(//".to_owned();
    r.append(tag);
    r.append("[normalize-space(text())='");
    r.append(search_text);
    r.append("'])[");
    let digits = i64_to_string(idx as i64);
    r.append(digits.as_str());
    r.append("]");
    proof {
        assert(r@ =~= text_xpath_spec(
            search_text@,
            match tag_name {
                Some(t) => t@,
                None => "*"@,
            },
            match index {
                Some(i) => i as int,
                None => 1int,
            },
        ));
    }
    r
}

/// The script that dispatches a browser-native alert with a message.
pub open spec fn alert_script_spec(message: Seq<char>) -> Seq<char> {
    "alert('"@ + message + "');"@
}

/// Build the alert script for a message.
pub fn alert_script(message: &str) -> (r: String)
    ensures
        r@ == alert_script_spec(message@),
{
    let mut r: String = "alert('".to_owned();
    r.append(message);
    r.append("');");
    proof {
        assert(r@ =~= alert_script_spec(message@));
    }
    r
}

struct NavigateAction {
    url: String,
}

impl<D: Driver> RetryAction<D, ()> for NavigateAction {
    fn attempt(&mut self, ctx: &mut D) -> Result<(), ScrapeError> {
        match ctx.navigate(self.url.as_str()) {
            Ok(_) => {},
            Err(e) => {
                return Err(e.into_scrape_error(ErrorKind::Interaction));
            },
        }
        match ctx.wait_until_navigated() {
            Ok(_) => Ok(()),
            Err(e) => Err(e.into_scrape_error(ErrorKind::Interaction)),
        }
    }
}

struct QueryAction {
    selector: String,
}

impl<D: Driver> RetryAction<D, <D as Driver>::Elem> for QueryAction {
    fn attempt(&mut self, ctx: &mut D) -> Result<<D as Driver>::Elem, ScrapeError> {
        let elem = match ctx.query_selector(self.selector.as_str(), ELEMENT_WAIT_SECS) {
            Ok(e) => e,
            Err(e) => {
                return Err(e.into_scrape_error(ErrorKind::NotFound));
            },
        };
        match ctx.scroll_into_view(&elem) {
            Ok(_) => Ok(elem),
            Err(e) => Err(e.into_scrape_error(ErrorKind::NotFound)),
        }
    }
}

struct XPathAction {
    xpath: String,
}

impl<D: Driver> RetryAction<D, <D as Driver>::Elem> for XPathAction {
    fn attempt(&mut self, ctx: &mut D) -> Result<<D as Driver>::Elem, ScrapeError> {
        let elem = match ctx.query_xpath(self.xpath.as_str(), ELEMENT_WAIT_SECS) {
            Ok(e) => e,
            Err(e) => {
                return Err(e.into_scrape_error(ErrorKind::NotFound));
            },
        };
        match ctx.scroll_into_view(&elem) {
            Ok(_) => Ok(elem),
            Err(e) => Err(e.into_scrape_error(ErrorKind::NotFound)),
        }
    }
}

struct TextAction {
    selector: String,
}

impl<D: Driver> RetryAction<D, String> for TextAction {
    fn attempt(&mut self, ctx: &mut D) -> Result<String, ScrapeError> {
        let mut query = QueryAction { selector: self.selector.clone() };
        let out = retry(ctx, &mut query, RETRY_ATTEMPTS, RETRY_DELAY_SECS);
        let elem = match out.result {
            Ok(e) => e,
            Err(e) => {
                return Err(e);
            },
        };
        match ctx.inner_text(&elem) {
            Ok(t) => Ok(t),
            Err(e) => Err(e.into_scrape_error(ErrorKind::Interaction)),
        }
    }
}

struct ClickAction<E> {
    elem: E,
}

impl<E, D: Driver<Elem = E>> RetryAction<D, ()> for ClickAction<E> {
    fn attempt(&mut self, ctx: &mut D) -> Result<(), ScrapeError> {
        match ctx.click(&self.elem) {
            Ok(_) => {},
            Err(e) => {
                return Err(e.into_scrape_error(ErrorKind::Interaction));
            },
        }
        ctx.pause(CLICK_SETTLE_SECS);
        match ctx.wait_until_navigated() {
            Ok(_) => Ok(()),
            Err(e) => Err(e.into_scrape_error(ErrorKind::Interaction)),
        }
    }
}

struct FillAction<E> {
    elem: E,
    content: String,
}

impl<E, D: Driver<Elem = E>> RetryAction<D, ()> for FillAction<E> {
    fn attempt(&mut self, ctx: &mut D) -> Result<(), ScrapeError> {
        match ctx.type_text(&self.elem, self.content.as_str()) {
            Ok(_) => Ok(()),
            Err(e) => Err(e.into_scrape_error(ErrorKind::Interaction)),
        }
    }
}

/// Whether every operation in the sequence that looks its target up (a
/// click, or a fill that carries content) names a registered element.
pub open spec fn targets_registered(ops: Seq<Operation>, selectors: Map<Seq<char>, Seq<char>>) -> bool {
    forall|i: int|
        0 <= i < ops.len() ==> (op_requires_lookup(#[trigger] ops[i])
            ==> selectors.contains_key(ops[i].target@))
}

/// Whether every operation in the sequence is a fill without content: the
/// documented silent no-op, the one step no outside call decides.
pub open spec fn all_silent_fills(ops: Seq<Operation>) -> bool {
    forall|i: int|
        0 <= i < ops.len() ==> (#[trigger] ops[i]).method is Fill && ops[i].content is None
}

/// One scraping session: exclusive ownership of a live tab context,
/// together with the immutable selector registry. Every driver interaction
/// is retried under the uniform policy; registry lookups are pure local
/// accesses and never retried.
pub struct ScrapingWrapper<D: Driver> {
    driver: D,
    registry: ElementRegistry,
}

impl<D: Driver> ScrapingWrapper<D> {
    /// The selector registry this session was constructed with.
    pub closed spec fn selectors(&self) -> Map<Seq<char>, Seq<char>> {
        self.registry@
    }

    /// The driver this session owns.
    pub closed spec fn spec_driver(&self) -> D {
        self.driver
    }

    /// Wrap an established session. The registry comes from the options'
    /// bindings (later bindings for the same name win), or is empty when
    /// none were supplied; it cannot change afterwards.
    pub fn new(driver: D, opt: ScrapeOption) -> (r: ScrapingWrapper<D>)
        ensures
            r.selectors() == map_of(
                match opt.dom_defs {
                    Some(defs) => defs@,
                    None => Seq::<(String, String)>::empty(),
                },
            ),
    {
        let defs: Vec<(String, String)> = match opt.dom_defs {
            Some(d) => d,
            None => Vec::new(),
        };
        ScrapingWrapper { driver, registry: ElementRegistry::new(defs) }
    }

    /// Give the driver back, consuming the session.
    pub fn into_driver(self) -> (d: D)
        ensures
            d == self.spec_driver(),
    {
        self.driver
    }

    /// Navigate to the URL and block until a load-completion signal is
    /// observed, retried under the uniform policy.
    pub fn go(&mut self, url: &str) -> (r: Result<(), ScrapeError>)
        ensures
            final(self).selectors() == old(self).selectors(),
            r matches Err(e) ==> e.kind == ErrorKind::Interaction,
    {
        let mut action = NavigateAction { url: url.to_owned() };
        let out = retry(&mut self.driver, &mut action, RETRY_ATTEMPTS, RETRY_DELAY_SECS);
        match out.result {
            Ok(_) => Ok(()),
            Err(e) => Err(ScrapeError::new(ErrorKind::Interaction, e.message)),
        }
    }

    /// Dispatch a browser-native alert with the given or a default
    /// message. Despite the name, this only dispatches the alert: it does
    /// not block until the alert is dismissed.
    pub fn show_dialog_and_wait(&mut self, message: Option<&str>) -> (r: Result<(), ScrapeError>)
        ensures
            final(self).selectors() == old(self).selectors(),
            r matches Err(e) ==> e.kind == ErrorKind::Interaction,
    {
        let script = match message {
            Some(m) => alert_script(m),
            None => alert_script("Press OK to continue."),
        };
        match self.driver.evaluate(script.as_str(), true) {
            Ok(_) => Ok(()),
            Err(e) => Err(e.into_scrape_error(ErrorKind::Interaction)),
        }
    }

    /// Resolve a registered name to a live element handle: look the
    /// selector up (a pure local access, failing at once with `Lookup` for
    /// an unregistered name, with no wait and no driver call), then wait
    /// for a match and scroll it into view, retried under the uniform
    /// policy; `NotFound` when no match appeared across all attempts.
    pub fn get_dom(&mut self, target: &str) -> (r: Result<D::Elem, ScrapeError>)
        ensures
            final(self).selectors() == old(self).selectors(),
            (r matches Err(e) && e.kind == ErrorKind::Lookup) <==> !old(self).selectors()
                .contains_key(target@),
            r matches Err(e) ==> (e.kind == ErrorKind::Lookup || e.kind == ErrorKind::NotFound),
    {
        let selector = match self.registry.lookup(target) {
            Some(s) => s,
            None => {
                return Err(
                    ScrapeError::new(ErrorKind::Lookup, "unregistered selector name".to_owned()),
                );
            },
        };
        let mut action = QueryAction { selector };
        let out = retry(&mut self.driver, &mut action, RETRY_ATTEMPTS, RETRY_DELAY_SECS);
        match out.result {
            Ok(elem) => Ok(elem),
            Err(e) => Err(ScrapeError::new(ErrorKind::NotFound, e.message)),
        }
    }

    /// Resolve an element by its normalized text content, an optional tag
    /// name (any tag by default) and a 1-based position among the matches
    /// in document order (first by default); same wait/scroll/retry
    /// discipline as [`Self::get_dom`]. A position beyond the number of
    /// matches fails with `NotFound` once the retries are exhausted.
    pub fn get_dom_by_text(
        &mut self,
        search_text: &str,
        tag_name: Option<&str>,
        index: Option<i8>,
    ) -> (r: Result<D::Elem, ScrapeError>)
        ensures
            final(self).selectors() == old(self).selectors(),
            r matches Err(e) ==> e.kind == ErrorKind::NotFound,
    {
        let xpath = text_query_xpath(search_text, tag_name, index);
        let mut action = XPathAction { xpath };
        let out = retry(&mut self.driver, &mut action, RETRY_ATTEMPTS, RETRY_DELAY_SECS);
        match out.result {
            Ok(elem) => Ok(elem),
            Err(e) => Err(ScrapeError::new(ErrorKind::NotFound, e.message)),
        }
    }

    /// Click the element, wait the fixed settle delay, then block until a
    /// load-completion signal is observed — even for clicks that trigger
    /// no navigation, a known imprecision of the observed behavior that
    /// can wait out the timeout on such clicks.
    pub fn click(&mut self, element: D::Elem) -> (r: Result<(), ScrapeError>)
        ensures
            final(self).selectors() == old(self).selectors(),
            r matches Err(e) ==> e.kind == ErrorKind::Interaction,
    {
        let mut action = ClickAction { elem: element };
        let out = retry(&mut self.driver, &mut action, RETRY_ATTEMPTS, RETRY_DELAY_SECS);
        match out.result {
            Ok(_) => Ok(()),
            Err(e) => Err(ScrapeError::new(ErrorKind::Interaction, e.message)),
        }
    }

    /// Type the content into the element, retried under the uniform
    /// policy.
    pub fn fill_textbox(&mut self, element: D::Elem, content: String) -> (r: Result<
        (),
        ScrapeError,
    >)
        ensures
            final(self).selectors() == old(self).selectors(),
            r matches Err(e) ==> e.kind == ErrorKind::Interaction,
    {
        let mut action = FillAction { elem: element, content };
        let out = retry(&mut self.driver, &mut action, RETRY_ATTEMPTS, RETRY_DELAY_SECS);
        match out.result {
            Ok(_) => Ok(()),
            Err(e) => Err(ScrapeError::new(ErrorKind::Interaction, e.message)),
        }
    }

    /// The rendered inner text of the element a registered name resolves
    /// to. The resolution is re-run on every attempt, never reusing a
    /// stale handle; an unregistered name fails at once with `Lookup`. A
    /// failed run keeps the final attempt's classification: `NotFound`
    /// when the element never resolved, `Interaction` when the text read
    /// itself failed.
    pub fn get_inner_text(&mut self, target: &str) -> (r: Result<String, ScrapeError>)
        ensures
            final(self).selectors() == old(self).selectors(),
            (r matches Err(e) && e.kind == ErrorKind::Lookup) <==> !old(self).selectors()
                .contains_key(target@),
            r matches Err(e) ==> (e.kind == ErrorKind::Lookup || e.kind == ErrorKind::NotFound
                || e.kind == ErrorKind::Interaction),
    {
        let selector = match self.registry.lookup(target) {
            Some(s) => s,
            None => {
                return Err(
                    ScrapeError::new(ErrorKind::Lookup, "unregistered selector name".to_owned()),
                );
            },
        };
        let mut action = TextAction { selector };
        let out = retry(&mut self.driver, &mut action, RETRY_ATTEMPTS, RETRY_DELAY_SECS);
        match out.result {
            Ok(text) => Ok(text),
            Err(e) => {
                if e.kind == ErrorKind::Interaction {
                    Err(ScrapeError::new(ErrorKind::Interaction, e.message))
                } else {
                    Err(ScrapeError::new(ErrorKind::NotFound, e.message))
                }
            },
        }
    }

    /// Close the tab this session drives, not the whole browser process.
    pub fn close_tab(&mut self) -> (r: Result<(), ScrapeError>)
        ensures
            final(self).selectors() == old(self).selectors(),
            r matches Err(e) ==> e.kind == ErrorKind::Interaction,
    {
        match self.driver.close_tab() {
            Ok(_) => Ok(()),
            Err(e) => Err(e.into_scrape_error(ErrorKind::Interaction)),
        }
    }

    /// Execute the operation sequence in order: navigate for `Go`, resolve
    /// and click for `Click`, resolve and type for `Fill` with content — a
    /// `Fill` without content is a silent no-op by design, succeeding
    /// without a lookup or a driver call. Execution halts at the first
    /// operation whose retried action is exhausted; nothing after that
    /// point runs, and nothing already applied is rolled back. A sequence
    /// that completes never skipped a lookup: success implies every
    /// click or content-carrying fill named a registered element.
    pub fn operate(&mut self, operations: Vec<Operation>) -> (r: Result<(), ScrapeError>)
        ensures
            final(self).selectors() == old(self).selectors(),
            operations@.len() == 0 ==> r is Ok,
            all_silent_fills(operations@) ==> r is Ok,
            r is Ok ==> targets_registered(operations@, old(self).selectors()),
            r matches Err(e) ==> (e.kind == ErrorKind::Lookup || e.kind == ErrorKind::NotFound
                || e.kind == ErrorKind::Interaction),
            (r matches Err(e) && e.kind == ErrorKind::Lookup) ==> !targets_registered(
                operations@,
                old(self).selectors(),
            ),
    {
        let mut idx: usize = 0;
        while idx < operations.len()
            invariant
                idx <= operations@.len(),
                self.selectors() == old(self).selectors(),
                forall|j: int|
                    0 <= j < idx ==> (op_requires_lookup(#[trigger] operations@[j]) ==> old(
                        self,
                    ).selectors().contains_key(operations@[j].target@)),
            decreases operations@.len() - idx,
        {
            let op = &operations[idx];
            let step: Result<(), ScrapeError> = match op.method {
                OperationMethod::Go => self.go(op.target.as_str()),
                OperationMethod::Click => {
                    match self.get_dom(op.target.as_str()) {
                        Ok(elem) => self.click(elem),
                        Err(e) => Err(e),
                    }
                },
                OperationMethod::Fill => {
                    match &op.content {
                        Some(content) => {
                            let text = content.clone();
                            match self.get_dom(op.target.as_str()) {
                                Ok(elem) => self.fill_textbox(elem, text),
                                Err(e) => Err(e),
                            }
                        },
                        None => Ok(()),
                    }
                },
            };
            match step {
                Ok(_) => {},
                Err(e) => {
                    proof {
                        if e.kind == ErrorKind::Lookup {
                            assert(op_requires_lookup(operations@[idx as int]));
                            assert(!old(self).selectors().contains_key(
                                operations@[idx as int].target@,
                            ));
                        }
                        assert(!(operations@[idx as int].method is Fill
                            && operations@[idx as int].content is None));
                    }
                    return Err(e);
                },
            }
            idx = idx + 1;
        }
        assert(targets_registered(operations@, old(self).selectors()));
        Ok(())
    }
}

} // verus!
