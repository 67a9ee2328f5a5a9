use vstd::prelude::*;

verus! {

/// The kind of one declarative operation: navigate to a URL, click a
/// registered element, or fill a registered text field.
#[derive(Clone, Copy, Debug, PartialEq, Eq, Structural)]
pub enum OperationMethod {
    Go,
    Click,
    Fill,
}

/// One declarative operation. `target` is a URL for `Go` and a registered
/// element name for `Click` and `Fill`; `content` is the text a `Fill`
/// types, and a `Fill` without content is a silent no-op by design.
#[derive(Clone, Debug)]
pub struct Operation {
    pub method: OperationMethod,
    pub target: String,
    pub content: Option<String>,
}

/// Whether executing this operation looks its target up in the registry:
/// a `Click`, or a `Fill` that carries content. A `Go` navigates to its
/// target, and a `Fill` without content does nothing at all.
pub open spec fn op_requires_lookup(op: Operation) -> bool {
    match op.method {
        OperationMethod::Go => false,
        OperationMethod::Click => true,
        OperationMethod::Fill => op.content is Some,
    }
}

/// Construction-time configuration: the selector registry's bindings, the
/// headless flag (on by default), an optional window size, and an optional
/// remote-debugging port whose presence switches launch mode to attach mode.
pub struct ScrapeOption {
    pub dom_defs: Option<Vec<(String, String)>>,
    pub headless: Option<bool>,
    pub window_size: Option<(u32, u32)>,
    pub port_number: Option<u16>,
}

/// The headless flag an option set denotes: true unless overridden.
pub open spec fn spec_headless(opt: ScrapeOption) -> bool {
    match opt.headless {
        Some(h) => h,
        None => true,
    }
}

} // verus!
