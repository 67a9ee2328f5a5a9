use vstd::prelude::*;

use crate::errors::DriverError;
use crate::retry::Sleeper;

verus! {

/// The browser-protocol transport the library drives: an external
/// collaborator, assumed provided. Implementations sit outside the library
/// (a real remote-debugging session, or a fake page model in tests); the
/// library promises nothing about what these primitives do, and its
/// contracts hold for every implementation.
///
/// `Elem` is the implementation's handle for a resolved DOM node. Such a
/// handle is valid only within the navigation context that produced it:
/// the library re-queries after navigating rather than reusing one.
pub trait Driver: Sleeper {
    type Elem;

    /// Start navigating the tab to the given URL.
    fn navigate(&mut self, url: &str) -> Result<(), DriverError>;

    /// Block until a load-completion signal is observed.
    fn wait_until_navigated(&mut self) -> Result<(), DriverError>;

    /// Evaluate a script in the tab, optionally awaiting its promise.
    fn evaluate(&mut self, script: &str, await_promise: bool) -> Result<(), DriverError>;

    /// Wait up to `timeout_secs` for an element matching the CSS selector.
    fn query_selector(&mut self, selector: &str, timeout_secs: u64) -> Result<
        Self::Elem,
        DriverError,
    >;

    /// Wait up to `timeout_secs` for an element matching the XPath locator.
    fn query_xpath(&mut self, xpath: &str, timeout_secs: u64) -> Result<Self::Elem, DriverError>;

    /// Scroll the element into the viewport.
    fn scroll_into_view(&mut self, elem: &Self::Elem) -> Result<(), DriverError>;

    /// Click the element.
    fn click(&mut self, elem: &Self::Elem) -> Result<(), DriverError>;

    /// Type the given text into the element.
    fn type_text(&mut self, elem: &Self::Elem, text: &str) -> Result<(), DriverError>;

    /// The element's rendered inner text.
    fn inner_text(&mut self, elem: &Self::Elem) -> Result<String, DriverError>;

    /// Close the tab this session drives, not the whole browser.
    fn close_tab(&mut self) -> Result<(), DriverError>;
}

} // verus!
