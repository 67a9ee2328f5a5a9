use vstd::prelude::*;
use vstd::string::StringExecFns;

use crate::errors::{ErrorKind, ScrapeError};
use crate::operations::{spec_headless, ScrapeOption};
use crate::text::{dec_digits, u64_to_string};

verus! {

/// One page descriptor from the remote-debugging discovery endpoint:
/// its `type` field and its websocket debugger address, each present only
/// when the JSON carried it as a string.
pub struct PageDescriptor {
    pub kind: Option<String>,
    pub url: Option<String>,
}

impl View for PageDescriptor {
    type V = (Option<Seq<char>>, Option<Seq<char>>);

    open spec fn view(&self) -> (Option<Seq<char>>, Option<Seq<char>>) {
        (
            match self.kind {
                Some(k) => Some(k@),
                None => None,
            },
            match self.url {
                Some(u) => Some(u@),
                None => None,
            },
        )
    }
}

/// The views of a sequence of page descriptors.
pub open spec fn views_of(v: Seq<PageDescriptor>) -> Seq<
    (Option<Seq<char>>, Option<Seq<char>>),
> {
    v.map_values(|d: PageDescriptor| d@)
}

/// The page descriptors a discovery response body denotes: `None` when the
/// body is not a JSON array, otherwise one entry per array element.
pub uninterp spec fn page_descriptors_of(body: Seq<char>) -> Option<
    Seq<(Option<Seq<char>>, Option<Seq<char>>)>,
>;

/// Relies on serde_json::from_str and serde_json::Value: parses the
/// discovery endpoint's JSON body and reads each element's `type` and
/// `webSocketDebuggerUrl` fields. The result is a function of the body
/// text alone.
#[verifier::external_body]
fn parse_page_descriptors(body: &str) -> (r: Option<Vec<PageDescriptor>>)
    ensures
        match r {
            Some(v) => page_descriptors_of(body@) == Some(views_of(v@)),
            None => page_descriptors_of(body@) is None,
        },
{
    let value: serde_json::Value = serde_json::from_str(body).ok()?;
    let entries = value.as_array()?;
    Some(
        entries
            .iter()
            .map(|entry| PageDescriptor {
                kind: entry["type"].as_str().map(|s| s.to_owned()),
                url: entry["webSocketDebuggerUrl"].as_str().map(|s| s.to_owned()),
            })
            .collect(),
    )
}

/// The websocket address the attach logic selects: that of the first
/// descriptor whose type equals "page". `None` when no descriptor has that
/// type, or when the first such descriptor carries no address.
pub open spec fn selected_ws_url(ds: Seq<(Option<Seq<char>>, Option<Seq<char>>)>) -> Option<
    Seq<char>,
>
    decreases ds.len(),
{
    if ds.len() == 0 {
        None
    } else if ds.first().0 == Some("page"@) {
        ds.first().1
    } else {
        selected_ws_url(ds.drop_first())
    }
}

/// From a discovery response body, the websocket debugger address to
/// attach to: the first descriptor of type "page". Fails with a
/// `Connection` error when the body is not a JSON array, no descriptor has
/// type "page", or the selected descriptor carries no address.
pub fn attach_websocket_url(body: &str) -> (r: Result<String, ScrapeError>)
    ensures
        match r {
            Ok(u) => (page_descriptors_of(body@) matches Some(ds) && selected_ws_url(ds)
                == Some(u@)),
            Err(e) => e.kind == ErrorKind::Connection && (page_descriptors_of(body@) is None || (
            page_descriptors_of(body@) matches Some(ds) && selected_ws_url(ds) is None)),
        },
{
    let parsed = match parse_page_descriptors(body) {
        Some(v) => v,
        None => {
            return Err(
                ScrapeError::new(
                    ErrorKind::Connection,
                    "discovery response is not a JSON array".to_owned(),
                ),
            );
        },
    };
    let ghost ds = views_of(parsed@);
    let page: String = "page".to_owned();
    let mut i: usize = 0;
    assert(ds.skip(0) =~= ds);
    while i < parsed.len()
        invariant
            i <= parsed.len(),
            page@ == "page"@,
            ds == views_of(parsed@),
            page_descriptors_of(body@) == Some(ds),
            selected_ws_url(ds) == selected_ws_url(ds.skip(i as int)),
        decreases parsed.len() - i,
    {
        let entry = &parsed[i];
        proof {
            assert(ds.skip(i as int).first() == ds[i as int]);
            assert(ds.skip(i as int).drop_first() =~= ds.skip(i as int + 1));
        }
        let is_page = match &entry.kind {
            Some(k) => *k == page,
            None => false,
        };
        if is_page {
            proof {
                assert(ds[i as int] == parsed@[i as int]@);
                assert(ds[i as int].0 == Some("page"@));
                assert(selected_ws_url(ds.skip(i as int)) == ds[i as int].1);
            }
            match &entry.url {
                Some(u) => {
                    return Ok(u.clone());
                },
                None => {
                    return Err(
                        ScrapeError::new(
                            ErrorKind::Connection,
                            "no websocket address on the first descriptor of type page".to_owned(),
                        ),
                    );
                },
            }
        }
        i = i + 1;
    }
    assert(ds.skip(parsed@.len() as int) =~= Seq::<(Option<Seq<char>>, Option<Seq<char>>)>::empty());
    Err(
        ScrapeError::new(
            ErrorKind::Connection,
            "no descriptor of type page in the discovery response".to_owned(),
        ),
    )
}

/// The active context a fresh connection selects: the last tab in
/// enumeration order, `None` when the browser reports no tab. With several
/// pages open that order is not specified across browser versions; last in
/// enumeration order is the rule, not a stronger guarantee.
pub fn select_active_tab<T>(tabs: &Vec<T>) -> (r: Option<&T>)
    ensures
        match r {
            Some(t) => tabs@.len() > 0 && *t == tabs@.last(),
            None => tabs@.len() == 0,
        },
{
    if tabs.len() == 0 {
        None
    } else {
        Some(&tabs[tabs.len() - 1])
    }
}

/// The discovery endpoint for a local remote-debugging port.
pub open spec fn discovery_url_spec(port: nat) -> Seq<char> {
    "http://localhost:"@ + dec_digits(port) + "/json"@
}

/// How a session is established: launch an isolated browser process with
/// the given flags, or attach through a remote-debugging discovery
/// endpoint.
pub enum ConnectPlan {
    Launch { headless: bool, window_size: Option<(u32, u32)> },
    Attach { discovery_url: String },
}

/// Decide how the session will be established: attach exactly when a port
/// was supplied, with the discovery URL built from it; otherwise launch,
/// headless unless overridden, passing the window size through.
pub fn connect_plan(opt: &ScrapeOption) -> (p: ConnectPlan)
    ensures
        match opt.port_number {
            Some(port) => (p matches ConnectPlan::Attach { discovery_url } && discovery_url@
                == discovery_url_spec(port as nat)),
            None => (p matches ConnectPlan::Launch { headless, window_size } && headless
                == spec_headless(*opt) && window_size == opt.window_size),
        },
{
    match opt.port_number {
        Some(port) => {
            let mut url: String = "http://localhost:".to_owned();
            let digits = u64_to_string(port as u64);
            url.append(digits.as_str());
            url.append("/json");
            ConnectPlan::Attach { discovery_url: url }
        },
        None => {
            let headless = match opt.headless {
                Some(h) => h,
                None => true,
            };
            ConnectPlan::Launch { headless, window_size: opt.window_size }
        },
    }
}

} // verus!
