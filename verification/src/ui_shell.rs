//! What the window shell decides: content-fit against user resizes, when a view
//! reaches its page, which embedded asset answers a request, and where a page
//! may navigate.
//!
//! - Pages and the app icon are **embedded assets** served over the `kbasset`
//!   custom protocol; the navigation rule denies everything else, so a page can
//!   never leave the binary's own content.
//! - A view pushed before its page is ready is kept and replayed, so a push can
//!   never race the page load.

use vstd::prelude::*;

use crate::text::split::{self, replace};
use crate::text::{self, same, starts_with};

verus! {

broadcast use vstd::string::group_string_axioms;

// ── Fitting the window to its content ───────────────────────────────────────

/// Decides whether content-fit resizes are allowed: the user's own resize wins
/// until the window is next shown. The ambiguity it settles is that our own
/// resize also echoes back as a "resized" event, so "did the user drag?" needs
/// bookkeeping.
#[derive(Debug, Clone, Copy, PartialEq, Eq)]
pub struct FitState {
    /// The user resized the window; stop fitting until re-shown.
    pub user_sized: bool,
    /// The physical size we last set ourselves, awaiting its echo.
    pub expected: Option<(u32, u32)>,
}

/// How far an echo may be off, in pixels: resize pipelines round.
pub const ECHO_TOLERANCE: u32 = 2;

/// The two lengths differ by no more than the tolerance.
pub open spec fn near(a: u32, b: u32) -> bool {
    -ECHO_TOLERANCE <= a - b <= ECHO_TOLERANCE
}

/// The size is the echo of the one that was set.
pub open spec fn echoes(expected: (u32, u32), size: (u32, u32)) -> bool {
    near(expected.0, size.0) && near(expected.1, size.1)
}

fn is_near(a: u32, b: u32) -> (r: bool)
    ensures
        r == near(a, b),
{
    if a >= b {
        a - b <= ECHO_TOLERANCE
    } else {
        b - a <= ECHO_TOLERANCE
    }
}

impl Default for FitState {
    fn default() -> (r: Self)
        ensures
            r == FitState::fresh(),
    {
        FitState { user_sized: false, expected: None }
    }
}

impl FitState {
    /// A window that was just shown.
    pub open spec fn fresh() -> FitState {
        FitState { user_sized: false, expected: None }
    }

    /// The state after a content-fit to `size` was asked for.
    pub open spec fn after_request(self, size: (u32, u32)) -> FitState {
        if self.user_sized {
            self
        } else {
            FitState { expected: Some(size), ..self }
        }
    }

    /// The state after the window reported a new size.
    pub open spec fn after_resized(self, size: (u32, u32)) -> FitState {
        match self.expected {
            Some(expected) => if echoes(expected, size) {
                FitState { expected: None, ..self }
            } else {
                self
            },
            None => FitState { user_sized: true, ..self },
        }
    }

    /// A content-fit to `size` (physical px) wants to run. True when allowed;
    /// records the size so its echo isn't taken for a user drag.
    pub fn request(&mut self, size: (u32, u32)) -> (r: bool)
        ensures
            r == !old(self).user_sized,
            *final(self) == old(self).after_request(size),
    {
        if self.user_sized {
            return false;
        }
        self.expected = Some(size);
        true
    }

    /// A "resized" event arrived (physical px). Our own echo (±2px) is consumed;
    /// anything else marks the window user-sized, unless it is an intermediate
    /// event while our resize settles.
    pub fn resized(&mut self, size: (u32, u32))
        ensures
            *final(self) == old(self).after_resized(size),
    {
        match self.expected {
            Some(expected) => {
                if is_near(expected.0, size.0) && is_near(expected.1, size.1) {
                    self.expected = None;
                }
            },
            None => {
                self.user_sized = true;
            },
        }
    }

    /// Re-shown: the user's old size preference expires, fitting resumes.
    pub fn reset(&mut self)
        ensures
            *final(self) == FitState::fresh(),
    {
        self.user_sized = false;
        self.expected = None;
    }

    /// Our own echo, however it is rounded, is never taken for a user drag, and
    /// fitting goes on after it.
    pub proof fn echo_is_not_a_drag(self, size: (u32, u32), echo: (u32, u32))
        requires
            !self.user_sized,
            echoes(size, echo),
        ensures
            self.after_request(size).after_resized(echo) == (FitState { expected: None, ..self }),
            !self.after_request(size).after_resized(echo).user_sized,
    {
    }

    /// Events while our resize settles change nothing.
    pub proof fn settling_changes_nothing(self, size: (u32, u32), seen: (u32, u32))
        requires
            !self.user_sized,
            !echoes(size, seen),
        ensures
            self.after_request(size).after_resized(seen) == self.after_request(size),
    {
    }

    /// A resize that nobody asked for is the user's, and then no fit is allowed
    /// or recorded until the window is shown again.
    pub proof fn user_size_wins(self, size: (u32, u32), wanted: (u32, u32), later: (u32, u32))
        requires
            self.expected is None,
        ensures
            self.after_resized(size).user_sized,
            self.after_resized(size).after_request(wanted) == self.after_resized(size),
            self.after_resized(size).after_resized(later).user_sized,
    {
    }
}

// ── Rendering a view into its page ──────────────────────────────────────────

/// What a page has been given to render: the latest view, and whether the page
/// can take it yet.
#[derive(Debug, Clone)]
pub struct RenderState {
    /// The page ran its inline script and can accept views.
    pub ready: bool,
    /// Latest serialized view, replayed on `ready` (and kept for re-shows).
    pub last_view: Option<String>,
}

/// The script that hands a view to the page.
pub open spec fn render_script(view_json: Seq<char>) -> Seq<char> {
    "window.__render("@ + view_json + ")"@
}

/// The script that hands a view to the page.
pub fn script_for(view_json: &str) -> (r: String)
    ensures
        r@ == render_script(view_json@),
{
    let mut r = "window.__render(".to_owned();
    r.append(view_json);
    r.append(")");
    r
}

impl Default for RenderState {
    fn default() -> (r: Self)
        ensures
            !r.ready,
            r.last_view is None,
    {
        RenderState { ready: false, last_view: None }
    }
}

impl RenderState {
    /// The state after a view was handed in.
    pub open spec fn with_view(self, view_json: String) -> RenderState {
        RenderState { last_view: Some(view_json), ..self }
    }

    /// The state after views were handed in, one after the other.
    pub open spec fn with_views(self, views: Seq<String>) -> RenderState
        decreases views.len(),
    {
        if views.len() == 0 {
            self
        } else {
            self.with_views(views.drop_last()).with_view(views.last())
        }
    }

    /// The state after the page finished loading.
    pub open spec fn loaded(self) -> RenderState {
        RenderState { ready: true, ..self }
    }

    /// The script that the page's loading runs.
    pub open spec fn replay(self) -> Option<Seq<char>> {
        match self.last_view {
            Some(view) => Some(render_script(view@)),
            None => None,
        }
    }

    /// The page finished loading; the script that replays the latest view, if
    /// one arrived early.
    pub fn page_ready(&mut self) -> (r: Option<String>)
        ensures
            *final(self) == old(self).loaded(),
            r.deep_view() == old(self).replay(),
    {
        self.ready = true;
        match &self.last_view {
            Some(view) => Some(script_for(view.as_str())),
            None => None,
        }
    }

    /// Render a serialized view: the script to run now, if the page is ready.
    /// Safe to call before: the view is kept and replayed.
    pub fn render(&mut self, view_json: String) -> (r: Option<String>)
        ensures
            *final(self) == old(self).with_view(view_json),
            r.deep_view() == (if old(self).ready {
                Some(render_script(view_json@))
            } else {
                None
            }),
    {
        let script = if self.ready {
            Some(script_for(view_json.as_str()))
        } else {
            None
        };
        self.last_view = Some(view_json);
        script
    }

    /// A push never races the page load: whatever views arrive before the page
    /// is ready, loading shows the latest of them.
    pub proof fn latest_view_is_replayed(self, views: Seq<String>)
        requires
            views.len() > 0,
        ensures
            self.with_views(views).ready == self.ready,
            self.with_views(views).replay() == Some(render_script(views.last()@)),
        decreases views.len(),
    {
        if views.len() > 1 {
            self.latest_view_is_replayed(views.drop_last());
        } else {
            assert(self.with_views(views.drop_last()) == self);
        }
    }
}

// ── Embedded assets ─────────────────────────────────────────────────────────

/// The placeholder each page's `<style>` block carries for the shared sheet.
pub const CSS_SLOT: &'static str = "/*__SHARED_CSS__*/";

/// A page with the shared style sheet spliced in.
pub fn styled_page(page_html: &str, shared_css: &str) -> (r: String)
    ensures
        r@ == split::replaced(page_html@, CSS_SLOT@, shared_css@),
{
    proof {
        reveal_strlit("/*__SHARED_CSS__*/");
    }
    replace(page_html, CSS_SLOT, shared_css)
}

/// The only place that a page may be (re)loaded from.
pub const ASSET_SCHEME: &'static str = "kbasset://";

/// Whether a page may navigate to a URL: only within our own embed.
pub fn may_navigate(url: &str) -> (r: bool)
    ensures
        r == text::begins(url@, ASSET_SCHEME@),
{
    starts_with(url, ASSET_SCHEME)
}

/// An embedded asset.
#[derive(Debug, Clone, Copy, PartialEq, Eq, Structural)]
pub enum Asset {
    /// The window's page.
    Page,
    /// The app icon shown in every window header.
    Icon,
}

impl Asset {
    /// The asset's media type.
    pub fn mime(self) -> (r: &'static str)
        ensures
            r@ == match self {
                Asset::Page => "text/html; charset=utf-8"@,
                Asset::Icon => "image/png"@,
            },
    {
        match self {
            Asset::Page => "text/html; charset=utf-8",
            Asset::Icon => "image/png",
        }
    }
}

/// The asset at a path; `None` is answered with "not found".
pub fn asset_at(path: &str) -> (r: Option<Asset>)
    ensures
        r == (if path@ == "/index.html"@ {
            Some(Asset::Page)
        } else if path@ == "/icon.png"@ {
            Some(Asset::Icon)
        } else {
            None
        }),
{
    if same(path, "/index.html") {
        Some(Asset::Page)
    } else if same(path, "/icon.png") {
        Some(Asset::Icon)
    } else {
        None
    }
}

} // verus!
