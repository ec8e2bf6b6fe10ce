//! The two schema variants of the AuroraWatch status feed.

use vstd::prelude::*;

verus! {

// ---------------------------------------------------------------------------
// Current schema: the `current_status` document.
// ---------------------------------------------------------------------------

/// One site's current alert level and metadata (the `site_status` element,
/// attributes only). `status_id` is one of green, yellow, amber, red; the
/// schema itself carries it as a plain string.
#[derive(Debug, Clone, PartialEq, Eq)]
pub struct SiteStatus {
    pub project_id: String,
    pub site_id: String,
    pub site_url: String,
    pub status_id: String,
}

pub ghost struct SiteStatusView {
    pub project_id: Seq<char>,
    pub site_id: Seq<char>,
    pub site_url: Seq<char>,
    pub status_id: Seq<char>,
}

impl View for SiteStatus {
    type V = SiteStatusView;

    open spec fn view(&self) -> SiteStatusView {
        SiteStatusView {
            project_id: self.project_id@,
            site_id: self.site_id@,
            site_url: self.site_url@,
            status_id: self.status_id@,
        }
    }
}

/// The `updated` element: a wrapper around one ISO-8601-like timestamp.
#[derive(Debug, Clone, PartialEq, Eq)]
pub struct Updated {
    pub datetime: String,
}

pub ghost struct UpdatedView {
    pub datetime: Seq<char>,
}

impl View for Updated {
    type V = UpdatedView;

    open spec fn view(&self) -> UpdatedView {
        UpdatedView { datetime: self.datetime@ }
    }
}

/// The root record of a `current_status` document.
#[derive(Debug, Clone, PartialEq, Eq)]
pub struct Status {
    pub api_version: String,
    pub updated: Updated,
    pub site_status: SiteStatus,
}

pub ghost struct StatusView {
    pub api_version: Seq<char>,
    pub updated: UpdatedView,
    pub site_status: SiteStatusView,
}

impl View for Status {
    type V = StatusView;

    open spec fn view(&self) -> StatusView {
        StatusView {
            api_version: self.api_version@,
            updated: self.updated@,
            site_status: self.site_status@,
        }
    }
}

// ---------------------------------------------------------------------------
// Legacy schema: the `aurorawatch` document.
// ---------------------------------------------------------------------------

/// One alert state: three attributes plus the element's own text content,
/// which binds to `description` rather than to a child element.
#[derive(Debug, Clone, PartialEq, Eq)]
pub struct State {
    pub name: String,
    pub value: String,
    pub color: String,
    pub description: String,
}

pub ghost struct StateView {
    pub name: Seq<char>,
    pub value: Seq<char>,
    pub color: Seq<char>,
    pub description: Seq<char>,
}

impl View for State {
    type V = StateView;

    open spec fn view(&self) -> StateView {
        StateView {
            name: self.name@,
            value: self.value@,
            color: self.color@,
            description: self.description@,
        }
    }
}

/// A `current` or `previous` element: a wrapper around one `state`.
#[derive(Debug, Clone, PartialEq, Eq)]
pub struct Entry {
    pub state: State,
}

pub ghost struct EntryView {
    pub state: StateView,
}

impl View for Entry {
    type V = EntryView;

    open spec fn view(&self) -> EntryView {
        EntryView { state: self.state@ }
    }
}

/// The root record of a legacy `aurorawatch` document.
#[derive(Debug, Clone, PartialEq, Eq)]
pub struct AuroraWatch {
    pub current: Entry,
    pub previous: Entry,
    pub station: String,
    pub updated: String,
}

pub ghost struct AuroraWatchView {
    pub current: EntryView,
    pub previous: EntryView,
    pub station: Seq<char>,
    pub updated: Seq<char>,
}

impl View for AuroraWatch {
    type V = AuroraWatchView;

    open spec fn view(&self) -> AuroraWatchView {
        AuroraWatchView {
            current: self.current@,
            previous: self.previous@,
            station: self.station@,
            updated: self.updated@,
        }
    }
}

} // verus!
