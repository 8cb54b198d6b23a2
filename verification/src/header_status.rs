//! The reading that the title bar shows in its centre.

use vstd::prelude::*;

use crate::text::{spec_trim, str_eq, trim};

verus! {

/// What the title bar's centre shows.
#[derive(Clone, Copy, Debug, PartialEq, Eq, Structural)]
pub enum HeaderStatusMode {
    Session,
    Resources,
    Host,
    Gpu,
    Npu,
    DateTime,
}

/// The mode that a stored setting names; anything unknown is `Session`.
pub open spec fn spec_header_status_mode_from_setting(value: Seq<char>) -> HeaderStatusMode {
    let t = spec_trim(value);
    if t == "resources"@ {
        HeaderStatusMode::Resources
    } else if t == "host"@ {
        HeaderStatusMode::Host
    } else if t == "gpu"@ {
        HeaderStatusMode::Gpu
    } else if t == "npu"@ {
        HeaderStatusMode::Npu
    } else if t == "datetime"@ {
        HeaderStatusMode::DateTime
    } else {
        HeaderStatusMode::Session
    }
}

impl HeaderStatusMode {
    /// Every mode, in the order the picker lists them.
    pub fn all() -> (r: [Self; 6])
        ensures
            r@ == seq![
                HeaderStatusMode::Session,
                HeaderStatusMode::Resources,
                HeaderStatusMode::Host,
                HeaderStatusMode::DateTime,
                HeaderStatusMode::Gpu,
                HeaderStatusMode::Npu,
            ],
    {
        let r = [
            HeaderStatusMode::Session,
            HeaderStatusMode::Resources,
            HeaderStatusMode::Host,
            HeaderStatusMode::DateTime,
            HeaderStatusMode::Gpu,
            HeaderStatusMode::Npu,
        ];
        assert(r@ =~= seq![
            HeaderStatusMode::Session,
            HeaderStatusMode::Resources,
            HeaderStatusMode::Host,
            HeaderStatusMode::DateTime,
            HeaderStatusMode::Gpu,
            HeaderStatusMode::Npu,
        ]);
        r
    }

    /// The mode that a stored setting names, surrounding white space ignored;
    /// anything unknown is `Session`.
    pub fn from_setting(value: &str) -> (r: Self)
        ensures
            r == spec_header_status_mode_from_setting(value@),
    {
        let t = trim(value);
        let t = t.as_str();
        if str_eq(t, "resources") {
            HeaderStatusMode::Resources
        } else if str_eq(t, "host") {
            HeaderStatusMode::Host
        } else if str_eq(t, "gpu") {
            HeaderStatusMode::Gpu
        } else if str_eq(t, "npu") {
            HeaderStatusMode::Npu
        } else if str_eq(t, "datetime") {
            HeaderStatusMode::DateTime
        } else {
            HeaderStatusMode::Session
        }
    }

    /// The id under which the mode is stored.
    pub open spec fn spec_persistence_id(self) -> Seq<char> {
        match self {
            HeaderStatusMode::Session => "session"@,
            HeaderStatusMode::Resources => "resources"@,
            HeaderStatusMode::Host => "host"@,
            HeaderStatusMode::Gpu => "gpu"@,
            HeaderStatusMode::Npu => "npu"@,
            HeaderStatusMode::DateTime => "datetime"@,
        }
    }

    /// The id under which the mode is stored.
    pub fn persistence_id(self) -> (r: &'static str)
        ensures
            r@ == self.spec_persistence_id(),
    {
        match self {
            HeaderStatusMode::Session => "session",
            HeaderStatusMode::Resources => "resources",
            HeaderStatusMode::Host => "host",
            HeaderStatusMode::Gpu => "gpu",
            HeaderStatusMode::Npu => "npu",
            HeaderStatusMode::DateTime => "datetime",
        }
    }

    /// The translation key of the mode's label.
    pub open spec fn spec_i18n_key(self) -> Seq<char> {
        match self {
            HeaderStatusMode::Session => "headerStatus.session"@,
            HeaderStatusMode::Resources => "headerStatus.resources"@,
            HeaderStatusMode::Host => "headerStatus.host"@,
            HeaderStatusMode::Gpu => "headerStatus.gpu"@,
            HeaderStatusMode::Npu => "headerStatus.npu"@,
            HeaderStatusMode::DateTime => "headerStatus.datetime"@,
        }
    }

    /// The translation key of the mode's label.
    pub fn i18n_key(self) -> (r: &'static str)
        ensures
            r@ == self.spec_i18n_key(),
    {
        match self {
            HeaderStatusMode::Session => "headerStatus.session",
            HeaderStatusMode::Resources => "headerStatus.resources",
            HeaderStatusMode::Host => "headerStatus.host",
            HeaderStatusMode::Gpu => "headerStatus.gpu",
            HeaderStatusMode::Npu => "headerStatus.npu",
            HeaderStatusMode::DateTime => "headerStatus.datetime",
        }
    }
}

/// Every mode reads back from the id it is stored under.
pub proof fn lemma_header_status_mode_round_trip(mode: HeaderStatusMode)
    ensures
        spec_header_status_mode_from_setting(mode.spec_persistence_id()) == mode,
{
    reveal_strlit("session");
    reveal_strlit("resources");
    reveal_strlit("host");
    reveal_strlit("gpu");
    reveal_strlit("npu");
    reveal_strlit("datetime");
    let id = mode.spec_persistence_id();
    assert(spec_trim(id) == id) by {
        crate::text::lemma_trim_of_unpadded(id);
    }
}

/// The clock state that the title bar keeps between renders.
#[derive(Clone, Copy, Debug, PartialEq, Eq, Structural)]
pub struct HeaderStatusState {
    pub rendered_minute: i64,
    pub gpu_page: usize,
    pub npu_page: usize,
}

impl Default for HeaderStatusState {
    /// No minute rendered yet, first pages.
    fn default() -> (r: Self)
        ensures
            r.rendered_minute == -1,
            r.gpu_page == 0,
            r.npu_page == 0,
    {
        HeaderStatusState { rendered_minute: -1, gpu_page: 0, npu_page: 0 }
    }
}

} // verus!
