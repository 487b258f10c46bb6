//! The instance, and which windows it can draw to.

use vstd::prelude::*;

verus! {

/// The backend itself.
#[derive(Clone, Copy, Debug)]
pub struct Api;

/// An entry point to the backend.
pub struct Instance {}

/// Why an instance could not do what it was asked for.
#[derive(Debug)]
pub struct InstanceError {
    pub message: String,
}

/// The operating system that the backend was built for.
#[derive(Clone, Copy, Debug, PartialEq, Eq, Structural)]
pub enum TargetOs {
    MacOs,
    Ios,
    VisionOs,
    /// A system without windows for this backend.
    Other,
}

/// A window by what draws its contents: a view of type `V` where the window system has one.
#[derive(Debug)]
pub enum WindowHandle<V> {
    UiKit { ui_view: V },
    AppKit { ns_view: V },
    Other,
}

/// The view of a window in which a surface can be made on `target`.
pub open spec fn compatible_view<V>(target: TargetOs, handle: WindowHandle<V>) -> Option<V> {
    match handle {
        WindowHandle::UiKit { ui_view } => if target is Ios || target is VisionOs {
            Some(ui_view)
        } else {
            None
        },
        WindowHandle::AppKit { ns_view } => if target is MacOs {
            Some(ns_view)
        } else {
            None
        },
        WindowHandle::Other => None,
    }
}

/// What is said of a window, written out as `description`, in which no surface can be made.
pub open spec fn incompatible_message(description: Seq<char>) -> Seq<char> {
    "window handle "@ + description + " is not a Metal-compatible handle"@
}

impl Instance {
    /// A new instance. It never fails.
    pub fn init() -> (instance: Result<Instance, InstanceError>)
        ensures
            instance == Ok::<Instance, InstanceError>(Instance {  }),
    {
        Ok(Instance {  })
    }

    /// The view in which to make a surface for a window, on a system `target`. `description` is
    /// the window handle written out for error messages.
    pub fn create_surface<V>(
        &self,
        target: TargetOs,
        window_handle: WindowHandle<V>,
        description: &str,
    ) -> (view: Result<V, InstanceError>)
        ensures
            match (compatible_view(target, window_handle), view) {
                (Some(expected), Ok(view)) => view == expected,
                (None, Err(error)) => error.message@ == incompatible_message(description@),
                _ => false,
            },
            view is Ok <==> (window_handle is UiKit && (target is Ios || target is VisionOs))
                || (window_handle is AppKit && target is MacOs),
            window_handle matches WindowHandle::UiKit { ui_view } ==> (view matches Ok(view)
                ==> view == ui_view),
            window_handle matches WindowHandle::AppKit { ns_view } ==> (view matches Ok(view)
                ==> view == ns_view),
            view matches Err(error) ==> error.message@ == "window handle "@ + description@
                + " is not a Metal-compatible handle"@,
    {
        match window_handle {
            WindowHandle::UiKit { ui_view } if target == TargetOs::Ios || target
                == TargetOs::VisionOs => Ok(ui_view),
            WindowHandle::AppKit { ns_view } if target == TargetOs::MacOs => Ok(ns_view),
            _ => {
                let mut message: String = "window handle ".to_owned();
                message.append(description);
                message.append(" is not a Metal-compatible handle");
                Err(InstanceError { message })
            },
        }
    }
}

/// A surface can be made in a window exactly if the window is of the window system that the target
/// has: UIKit on iOS and visionOS, AppKit on macOS. It is made in the window's own view.
pub proof fn law_surfaces_need_the_window_system_of_the_target<V>(target: TargetOs, view: V)
    ensures
        compatible_view(target, WindowHandle::UiKit { ui_view: view }) == if target is Ios
            || target is VisionOs {
            Some(view)
        } else {
            None
        },
        compatible_view(target, WindowHandle::AppKit { ns_view: view }) == if target is MacOs {
            Some(view)
        } else {
            None
        },
        compatible_view(target, WindowHandle::<V>::Other) is None,
{
}

/// No system can draw to windows of both window systems, and one without windows to none at all.
pub proof fn law_targets_have_at_most_one_window_system<V>(
    target: TargetOs,
    a: WindowHandle<V>,
    b: WindowHandle<V>,
)
    requires
        compatible_view(target, a) is Some,
        compatible_view(target, b) is Some,
    ensures
        a is UiKit <==> b is UiKit,
        !(target is Other),
{
}

/// A message quotes the description of the window in full and tells two windows apart that are
/// described differently.
pub proof fn law_message_quotes_description(a: Seq<char>, b: Seq<char>)
    ensures
        incompatible_message(a).len() == "window handle "@.len() + a.len()
            + " is not a Metal-compatible handle"@.len(),
        incompatible_message(a).take("window handle "@.len() as int) == "window handle "@,
        incompatible_message(a).subrange(
            "window handle "@.len() as int,
            "window handle "@.len() as int + a.len(),
        ) == a,
        incompatible_message(a).skip("window handle "@.len() as int + a.len())
            == " is not a Metal-compatible handle"@,
        incompatible_message(a) == incompatible_message(b) ==> a == b,
{
    let start = "window handle "@.len() as int;
    assert(incompatible_message(a).subrange(start, start + a.len()) =~= a);
    assert(incompatible_message(b).subrange(start, start + b.len()) =~= b);
}

} // verus!
