//! The window delegate: holds the user's window configuration and, when
//! the engine reports the window created, produces the ordered setup plan —
//! create and attach the browser view, show, then apply title, icons,
//! centered size, maximized and fullscreen flags, in that order.
//!
//! Window chrome is fixed policy: never frameless; resize, maximize,
//! minimize and close always permitted.

use vstd::prelude::*;

use crate::refcount::RefCount;

verus! {

/// The user-supplied presentation options, held for the window's life.
pub struct WindowOptions {
    /// The page the embedded browser view opens.
    pub url: String,
    /// The window title, when one is to be set.
    pub title: Option<String>,
    /// Whether the window starts maximized.
    pub maximized: bool,
    /// Whether the window starts fullscreen.
    pub fullscreen: bool,
    /// The size the window is centered at, when one is given.
    pub size: Option<(i32, i32)>,
    /// Encoded image bytes for the window icon.
    pub window_icon: Option<Vec<u8>>,
    /// Encoded image bytes for the application icon.
    pub window_app_icon: Option<Vec<u8>>,
}

/// The mathematical value of the options.
pub struct OptionsModel {
    pub url: Seq<char>,
    pub title: Option<Seq<char>>,
    pub maximized: bool,
    pub fullscreen: bool,
    pub size: Option<(i32, i32)>,
    pub window_icon: Option<Seq<u8>>,
    pub window_app_icon: Option<Seq<u8>>,
}

impl View for WindowOptions {
    type V = OptionsModel;

    open spec fn view(&self) -> OptionsModel {
        OptionsModel {
            url: self.url@,
            title: match &self.title {
                Some(t) => Some(t@),
                None => None,
            },
            maximized: self.maximized,
            fullscreen: self.fullscreen,
            size: self.size,
            window_icon: match &self.window_icon {
                Some(b) => Some(b@),
                None => None,
            },
            window_app_icon: match &self.window_app_icon {
                Some(b) => Some(b@),
                None => None,
            },
        }
    }
}

impl Default for WindowOptions {
    /// The default window: the author's home page at 1280 by 720, no
    /// title, no icons, windowed.
    fn default() -> (d: WindowOptions)
        ensures
            d@.url == "https://hamaluik.ca/"@,
            d@.title is None,
            !d@.maximized,
            !d@.fullscreen,
            d@.size == Some((1280i32, 720i32)),
            d@.window_icon is None,
            d@.window_app_icon is None,
    {
        WindowOptions {
            url: "https://hamaluik.ca/".to_owned(),
            title: None,
            maximized: false,
            fullscreen: false,
            size: Some((1280, 720)),
            window_icon: None,
            window_app_icon: None,
        }
    }
}

/// The browser-view settings: local storage, application cache and
/// database features are all explicitly disabled.
#[derive(Clone, Copy, PartialEq, Eq, Structural, Debug)]
pub struct BrowserSettings {
    pub databases_disabled: bool,
    pub local_storage_disabled: bool,
    pub application_cache_disabled: bool,
}

/// The fixed browser-view settings: everything persistent disabled.
pub open spec fn spec_browser_settings() -> BrowserSettings {
    BrowserSettings {
        databases_disabled: true,
        local_storage_disabled: true,
        application_cache_disabled: true,
    }
}

/// The fixed browser-view settings, as [`spec_browser_settings`] states.
pub fn browser_settings() -> (s: BrowserSettings)
    ensures
        s == spec_browser_settings(),
{
    BrowserSettings {
        databases_disabled: true,
        local_storage_disabled: true,
        application_cache_disabled: true,
    }
}

/// One step of setting up the created window, in plan order.
pub enum WindowSetupStep {
    /// Create the browser view on the given page with the fixed settings.
    CreateBrowserView(String, BrowserSettings),
    /// Attach the created view as the window's child view.
    AttachBrowserView,
    /// Show the window.
    Show,
    /// Set the window title.
    SetTitle(String),
    /// Set the window icon, by image handle.
    SetWindowIcon(u64),
    /// Set the application icon, by image handle.
    SetWindowAppIcon(u64),
    /// Center the window at the given width and height.
    CenterWindow(i32, i32),
    /// Maximize the window.
    Maximize,
    /// Set the window's fullscreen state.
    SetFullscreen(bool),
}

/// The mathematical value of a setup step.
pub enum StepModel {
    CreateBrowserView(Seq<char>, BrowserSettings),
    AttachBrowserView,
    Show,
    SetTitle(Seq<char>),
    SetWindowIcon(u64),
    SetWindowAppIcon(u64),
    CenterWindow(i32, i32),
    Maximize,
    SetFullscreen(bool),
}

impl View for WindowSetupStep {
    type V = StepModel;

    open spec fn view(&self) -> StepModel {
        match self {
            WindowSetupStep::CreateBrowserView(url, s) => StepModel::CreateBrowserView(url@, *s),
            WindowSetupStep::AttachBrowserView => StepModel::AttachBrowserView,
            WindowSetupStep::Show => StepModel::Show,
            WindowSetupStep::SetTitle(t) => StepModel::SetTitle(t@),
            WindowSetupStep::SetWindowIcon(i) => StepModel::SetWindowIcon(*i),
            WindowSetupStep::SetWindowAppIcon(i) => StepModel::SetWindowAppIcon(*i),
            WindowSetupStep::CenterWindow(w, h) => StepModel::CenterWindow(*w, *h),
            WindowSetupStep::Maximize => StepModel::Maximize,
            WindowSetupStep::SetFullscreen(f) => StepModel::SetFullscreen(*f),
        }
    }
}

/// The values of a whole plan.
pub open spec fn step_views(s: Seq<WindowSetupStep>) -> Seq<StepModel> {
    s.map_values(|x: WindowSetupStep| x@)
}

/// The ordered setup plan for a created window: create and attach the
/// browser view, show, then title, window icon, application icon,
/// centered size, maximized, fullscreen — each applied only when
/// configured, in exactly that order.
pub open spec fn spec_window_plan(
    o: OptionsModel,
    window_icon: Option<u64>,
    window_app_icon: Option<u64>,
) -> Seq<StepModel> {
    seq![
        StepModel::CreateBrowserView(o.url, spec_browser_settings()),
        StepModel::AttachBrowserView,
        StepModel::Show,
    ] + (match o.title {
        Some(t) => seq![StepModel::SetTitle(t)],
        None => Seq::<StepModel>::empty(),
    }) + (match window_icon {
        Some(i) => seq![StepModel::SetWindowIcon(i)],
        None => Seq::<StepModel>::empty(),
    }) + (match window_app_icon {
        Some(i) => seq![StepModel::SetWindowAppIcon(i)],
        None => Seq::<StepModel>::empty(),
    }) + (match o.size {
        Some((w, h)) => seq![StepModel::CenterWindow(w, h)],
        None => Seq::<StepModel>::empty(),
    }) + (if o.maximized {
        seq![StepModel::Maximize]
    } else {
        Seq::<StepModel>::empty()
    }) + (if o.fullscreen {
        seq![StepModel::SetFullscreen(true)]
    } else {
        Seq::<StepModel>::empty()
    })
}

/// The delegate holding the configuration of one top-level window.
pub struct WindowDelegate {
    /// The engine-mandated reference count.
    pub ref_count: RefCount,
    /// The user's presentation options.
    pub options: WindowOptions,
    /// The window icon converted to an engine image, by handle.
    pub window_icon: Option<u64>,
    /// The application icon converted to an engine image, by handle.
    pub window_app_icon: Option<u64>,
}

impl WindowDelegate {
    /// Takes one more counted reference to this delegate.
    pub fn inc_ref(&mut self)
        requires
            old(self).ref_count.count() >= 1,
            old(self).ref_count.count() < u64::MAX,
        ensures
            final(self).ref_count.count() == old(self).ref_count.count() + 1,
            final(self).options == old(self).options,
            final(self).window_icon == old(self).window_icon,
            final(self).window_app_icon == old(self).window_app_icon,
    {
        self.ref_count.add_ref();
    }

    /// The window is never frameless.
    pub fn is_frameless(&self) -> (r: bool)
        ensures
            r == false,
    {
        false
    }

    /// Resizing is always permitted.
    pub fn can_resize(&self) -> (r: bool)
        ensures
            r == true,
    {
        true
    }

    /// Maximizing is always permitted.
    pub fn can_maximize(&self) -> (r: bool)
        ensures
            r == true,
    {
        true
    }

    /// Minimizing is always permitted.
    pub fn can_minimize(&self) -> (r: bool)
        ensures
            r == true,
    {
        true
    }

    /// Closing is always permitted.
    pub fn can_close(&self) -> (r: bool)
        ensures
            r == true,
    {
        true
    }

    /// The engine reports the window created: the ordered setup plan to
    /// apply, exactly as [`spec_window_plan`] states it.
    pub fn window_delegate_created(&self) -> (plan: Vec<WindowSetupStep>)
        ensures
            step_views(plan@) == spec_window_plan(
                self.options@,
                self.window_icon,
                self.window_app_icon,
            ),
    {
        let mut plan: Vec<WindowSetupStep> = Vec::new();
        plan.push(
            WindowSetupStep::CreateBrowserView(self.options.url.clone(), browser_settings()),
        );
        plan.push(WindowSetupStep::AttachBrowserView);
        plan.push(WindowSetupStep::Show);
        match &self.options.title {
            Some(t) => plan.push(WindowSetupStep::SetTitle(t.clone())),
            None => (),
        }
        match self.window_icon {
            Some(i) => plan.push(WindowSetupStep::SetWindowIcon(i)),
            None => (),
        }
        match self.window_app_icon {
            Some(i) => plan.push(WindowSetupStep::SetWindowAppIcon(i)),
            None => (),
        }
        match self.options.size {
            Some((w, h)) => plan.push(WindowSetupStep::CenterWindow(w, h)),
            None => (),
        }
        if self.options.maximized {
            plan.push(WindowSetupStep::Maximize);
        }
        if self.options.fullscreen {
            plan.push(WindowSetupStep::SetFullscreen(true));
        }
        proof {
            assert(step_views(plan@) =~= spec_window_plan(
                self.options@,
                self.window_icon,
                self.window_app_icon,
            ));
        }
        plan
    }
}

/// A freshly allocated window delegate holding the given options and the
/// icons already converted to engine image handles.
pub fn allocate(
    options: WindowOptions,
    window_icon: Option<u64>,
    window_app_icon: Option<u64>,
) -> (d: WindowDelegate)
    ensures
        d.ref_count.count() == 1,
        d.options == options,
        d.window_icon == window_icon,
        d.window_app_icon == window_app_icon,
{
    WindowDelegate { ref_count: RefCount::new(), options, window_icon, window_app_icon }
}

} // verus!
