//! The page↔shell message protocol.
//!
//! Embedded pages talk to the shell only through short opaque messages; this
//! module is the single parser. Pages never send commands, paths, or URLs:
//! actions carry an *index* into the static [`crate::wizard::steps`] table,
//! validated here, and the shell executes only what that table says.

pub mod height;

use vstd::prelude::*;

use crate::pages::height::reports_height;
use crate::text::number::{self, parse_number};
use crate::text::{self, same, strip_prefix};
use crate::wizard;

verus! {

broadcast use vstd::string::group_string_axioms;

/// Which window a message came from.
#[derive(Debug, Clone, Copy, PartialEq, Eq, Structural)]
pub enum PageId {
    /// Devices window.
    Devices,
    /// Health Check window.
    Health,
    /// Setup Assistant window.
    Wizard,
}

/// A parsed, validated page message.
#[derive(Debug, Clone, PartialEq, Eq)]
pub enum PageMessage {
    /// The page loaded and can accept `__render` calls.
    Ready,
    /// The page asked to close (Escape).
    Close,
    /// The page reported its natural content height: the text of a number of
    /// logical pixels, neither infinite nor below zero, which the shell reads.
    Height(String),
    /// Health page: open the Setup Assistant.
    OpenWizard,
    /// Wizard page: run step `index`'s `run` argv ("Do it for me").
    RunStep(usize),
    /// Wizard page: `open(1)` step `index`'s open target.
    OpenStep(usize),
}

/// What a [`PageMessage`] says.
pub enum PageMessageView {
    Ready,
    Close,
    Height(Seq<char>),
    OpenWizard,
    RunStep(nat),
    OpenStep(nat),
}

impl DeepView for PageMessage {
    type V = PageMessageView;

    open spec fn deep_view(&self) -> PageMessageView {
        match *self {
            PageMessage::Ready => PageMessageView::Ready,
            PageMessage::Close => PageMessageView::Close,
            PageMessage::Height(px) => PageMessageView::Height(px@),
            PageMessage::OpenWizard => PageMessageView::OpenWizard,
            PageMessage::RunStep(i) => PageMessageView::RunStep(i as nat),
            PageMessage::OpenStep(i) => PageMessageView::OpenStep(i as nat),
        }
    }
}

/// The step index after a prefix: a number that names a step.
pub open spec fn index_after(message: Seq<char>, prefix: Seq<char>) -> Option<nat> {
    match text::after_prefix(message, prefix) {
        Some(rest) => number::number(rest, (wizard::STEP_COUNT - 1) as nat),
        None => None,
    }
}

/// What a message from a page means.
pub open spec fn meaning(page: PageId, message: Seq<char>) -> Option<PageMessageView> {
    if message == "ready"@ {
        Some(PageMessageView::Ready)
    } else if message == "close"@ {
        Some(PageMessageView::Close)
    } else if message == "open-wizard"@ && page == PageId::Health {
        Some(PageMessageView::OpenWizard)
    } else if text::after_prefix(message, "height:"@) is Some {
        let px = text::after_prefix(message, "height:"@)->0;
        if height::is_height(px) {
            Some(PageMessageView::Height(px))
        } else {
            None
        }
    } else if page != PageId::Wizard {
        None
    } else {
        match index_after(message, "run:"@) {
            // Only steps that declare a run argv are runnable.
            Some(i) => if wizard::step_runs(i as int) {
                Some(PageMessageView::RunStep(i))
            } else {
                None
            },
            None => match index_after(message, "open:"@) {
                Some(i) => if wizard::step_open(i as int) is Some {
                    Some(PageMessageView::OpenStep(i))
                } else {
                    None
                },
                None => None,
            },
        }
    }
}

/// Parse a raw message from `page`. Unknown/malformed/out-of-place messages
/// return `None`: silently dropped, never "best-effort" executed.
pub fn parse(page: PageId, message: &str) -> (r: Option<PageMessage>)
    ensures
        r.deep_view() == meaning(page, message@),
{
    if same(message, "ready") {
        return Some(PageMessage::Ready);
    }
    if same(message, "close") {
        return Some(PageMessage::Close);
    }
    if same(message, "open-wizard") && matches!(page, PageId::Health) {
        return Some(PageMessage::OpenWizard);
    }
    if let Some(px) = strip_prefix(message, "height:") {
        if reports_height(px.as_str()) {
            return Some(PageMessage::Height(px));
        }
        return None;
    }
    if matches!(page, PageId::Wizard) {
        let table = wizard::steps();
        if let Some(index) = parse_index(message, "run:") {
            assert(wizard::is_step(table@[index as int], index as int));
            if table[index].run.is_some() {
                return Some(PageMessage::RunStep(index));
            }
            return None;
        }
        if let Some(index) = parse_index(message, "open:") {
            assert(wizard::is_step(table@[index as int], index as int));
            if table[index].open.is_some() {
                return Some(PageMessage::OpenStep(index));
            }
            return None;
        }
    }
    None
}

fn parse_index(message: &str, prefix: &str) -> (r: Option<usize>)
    ensures
        match r {
            Some(i) => i < wizard::STEP_COUNT && index_after(message@, prefix@) == Some(i as nat),
            None => index_after(message@, prefix@) is None,
        },
{
    match strip_prefix(message, prefix) {
        Some(rest) => match parse_number(rest.as_str(), (wizard::STEP_COUNT - 1) as u64) {
            Some(n) => Some(n as usize),
            None => None,
        },
        None => None,
    }
}

/// A page can only pick from the step table: whatever it sends, a step action
/// comes from the wizard page alone and names a step that declares that action.
pub proof fn actions_come_from_the_table(page: PageId, message: Seq<char>)
    ensures
        meaning(page, message) matches Some(PageMessageView::RunStep(i)) ==> page == PageId::Wizard
            && i < wizard::STEP_COUNT && wizard::step_runs(i as int),
        meaning(page, message) matches Some(PageMessageView::OpenStep(i)) ==> page
            == PageId::Wizard && i < wizard::STEP_COUNT && wizard::step_open(i as int) is Some,
        meaning(page, message) is Some && meaning(page, message)->0 is OpenWizard ==> page
            == PageId::Health,
{
}

/// What a page can say, and from where: every page that it is ready or to be
/// closed; the health page that the assistant be opened; and the wizard page, by
/// its number, that a step be run or opened, where the step has that action.
pub proof fn pages_say_what_they_mean(page: PageId, i: nat)
    requires
        i < wizard::STEP_COUNT,
    ensures
        meaning(page, "ready"@) == Some(PageMessageView::Ready),
        meaning(page, "close"@) == Some(PageMessageView::Close),
        meaning(page, "open-wizard"@) == (if page == PageId::Health {
            Some(PageMessageView::OpenWizard)
        } else {
            None
        }),
        meaning(page, "run:"@ + number::decimal(i)) == (if page == PageId::Wizard
            && wizard::step_runs(i as int) {
            Some(PageMessageView::RunStep(i))
        } else {
            None
        }),
        meaning(page, "open:"@ + number::decimal(i)) == (if page == PageId::Wizard
            && wizard::step_open(i as int) is Some {
            Some(PageMessageView::OpenStep(i))
        } else {
            None
        }),
{
    reveal_strlit("ready");
    reveal_strlit("close");
    reveal_strlit("open-wizard");
    reveal_strlit("height:");
    reveal_strlit("run:");
    reveal_strlit("open:");
    number::number_reads_back(i, (wizard::STEP_COUNT - 1) as nat);
    number::decimal_reads_back(i);
    let run = "run:"@ + number::decimal(i);
    let open = "open:"@ + number::decimal(i);
    text::prefix_round_trip("run:"@, number::decimal(i));
    text::prefix_round_trip("open:"@, number::decimal(i));
    begins_otherwise(run, "height:"@);
    begins_otherwise(open, "height:"@);
    begins_otherwise(open, "run:"@);
    begins_otherwise("open-wizard"@, "height:"@);
    begins_otherwise("open-wizard"@, "run:"@);
    assert(run[1] == 'u' && "ready"@[1] == 'e');
    assert(open[4] == ':' && "open-wizard"@[4] == '-' && "close"@[0] == 'c');
    assert("ready"@[0] == 'r' && run[0] == 'r' && open[0] == 'o');
    if text::begins("open-wizard"@, "open:"@) {
        assert("open-wizard"@.subrange(0, 5)[4] == ':');
    }
}

proof fn begins_otherwise(s: Seq<char>, p: Seq<char>)
    requires
        s.len() > 0,
        p.len() > 0,
        s[0] != p[0],
    ensures
        !text::begins(s, p),
        text::after_prefix(s, p) is None,
{
    if text::begins(s, p) {
        assert(s.subrange(0, p.len() as int)[0] == s[0]);
    }
}

} // verus!
